//! The error kinds reported by validators, accessors and codecs.

use vstd::prelude::*;

verus! {

/// An error reported while validating or reinterpreting an account.
///
/// Each variant mirrors one failure kind of the execution environment:
/// a missing signature (also reported, deliberately, for a missing
/// writable flag), a wrong buffer shape, a wrong owner or address,
/// a buffer that is already initialized or still uninitialized,
/// seeds that do not derive the account's address, a borrow conflict,
/// an instruction addressed to the wrong program, malformed instruction
/// data, an owner that may not hold this kind of account, an
/// insufficient balance, and a caller-defined numeric code.
#[derive(Clone, Copy, Debug, PartialEq, Eq, Structural)]
pub enum AccountError {
    MissingRequiredSignature,
    InvalidAccountData,
    InvalidAccountOwner,
    AccountAlreadyInitialized,
    UninitializedAccount,
    InvalidSeeds,
    AccountBorrowFailed,
    IncorrectProgramId,
    InvalidInstructionData,
    IllegalOwner,
    InsufficientFunds,
    Custom(u32),
}

} // verus!
