//! Instruction payloads consumed and produced by the account layer.
//!
//! An instruction payload carries a one-byte discriminator followed by
//! the POD-encoded arguments. This module parses incoming payloads and
//! builds the byte payloads of the system authority's account
//! operations (create, transfer, allocate, assign), together with the
//! plan an allocation follows when the target account already holds
//! lamports.

use vstd::prelude::*;

use crate::bytes::{le_bytes_of, le_encode};
use crate::error::AccountError;

verus! {

use vstd::slice::{slice_index_get, slice_subrange};

/// An instruction type identified by a one-byte tag.
pub trait InstructionKind: Sized {
    /// The instruction identified by a tag, if any.
    spec fn from_tag_spec(t: u8) -> Option<Self>;

    /// Decodes a tag byte.
    fn from_tag(t: u8) -> (r: Option<Self>)
        ensures
            r == Self::from_tag_spec(t),
    ;
}

/// The instructions understood by the system authority.
#[derive(Clone, Copy, Debug, PartialEq, Eq, Structural)]
pub enum SystemInstruction {
    CreateAccount,
    Assign,
    Transfer,
    CreateAccountWithSeed,
    AdvanceNonceAccount,
    WithdrawNonceAccount,
    InitializeNonceAccount,
    AuthorizeNonceAccount,
    Allocate,
    AllocateWithSeed,
    AssignWithSeed,
    TransferWithSeed,
    UpgradeNonceAccount,
}

impl SystemInstruction {
    /// The wire tag of each instruction.
    pub open spec fn tag_spec(self) -> u8 {
        match self {
            SystemInstruction::CreateAccount => 0,
            SystemInstruction::Assign => 1,
            SystemInstruction::Transfer => 2,
            SystemInstruction::CreateAccountWithSeed => 3,
            SystemInstruction::AdvanceNonceAccount => 4,
            SystemInstruction::WithdrawNonceAccount => 5,
            SystemInstruction::InitializeNonceAccount => 6,
            SystemInstruction::AuthorizeNonceAccount => 7,
            SystemInstruction::Allocate => 8,
            SystemInstruction::AllocateWithSeed => 9,
            SystemInstruction::AssignWithSeed => 10,
            SystemInstruction::TransferWithSeed => 11,
            SystemInstruction::UpgradeNonceAccount => 12,
        }
    }

    /// Returns the wire tag.
    pub fn tag(self) -> (r: u8)
        ensures
            r == self.tag_spec(),
    {
        match self {
            SystemInstruction::CreateAccount => 0,
            SystemInstruction::Assign => 1,
            SystemInstruction::Transfer => 2,
            SystemInstruction::CreateAccountWithSeed => 3,
            SystemInstruction::AdvanceNonceAccount => 4,
            SystemInstruction::WithdrawNonceAccount => 5,
            SystemInstruction::InitializeNonceAccount => 6,
            SystemInstruction::AuthorizeNonceAccount => 7,
            SystemInstruction::Allocate => 8,
            SystemInstruction::AllocateWithSeed => 9,
            SystemInstruction::AssignWithSeed => 10,
            SystemInstruction::TransferWithSeed => 11,
            SystemInstruction::UpgradeNonceAccount => 12,
        }
    }
}

impl InstructionKind for SystemInstruction {
    open spec fn from_tag_spec(t: u8) -> Option<SystemInstruction> {
        if t == 0 {
            Some(SystemInstruction::CreateAccount)
        } else if t == 1 {
            Some(SystemInstruction::Assign)
        } else if t == 2 {
            Some(SystemInstruction::Transfer)
        } else if t == 3 {
            Some(SystemInstruction::CreateAccountWithSeed)
        } else if t == 4 {
            Some(SystemInstruction::AdvanceNonceAccount)
        } else if t == 5 {
            Some(SystemInstruction::WithdrawNonceAccount)
        } else if t == 6 {
            Some(SystemInstruction::InitializeNonceAccount)
        } else if t == 7 {
            Some(SystemInstruction::AuthorizeNonceAccount)
        } else if t == 8 {
            Some(SystemInstruction::Allocate)
        } else if t == 9 {
            Some(SystemInstruction::AllocateWithSeed)
        } else if t == 10 {
            Some(SystemInstruction::AssignWithSeed)
        } else if t == 11 {
            Some(SystemInstruction::TransferWithSeed)
        } else if t == 12 {
            Some(SystemInstruction::UpgradeNonceAccount)
        } else {
            None
        }
    }

    fn from_tag(t: u8) -> (r: Option<SystemInstruction>) {
        if t == 0 {
            Some(SystemInstruction::CreateAccount)
        } else if t == 1 {
            Some(SystemInstruction::Assign)
        } else if t == 2 {
            Some(SystemInstruction::Transfer)
        } else if t == 3 {
            Some(SystemInstruction::CreateAccountWithSeed)
        } else if t == 4 {
            Some(SystemInstruction::AdvanceNonceAccount)
        } else if t == 5 {
            Some(SystemInstruction::WithdrawNonceAccount)
        } else if t == 6 {
            Some(SystemInstruction::InitializeNonceAccount)
        } else if t == 7 {
            Some(SystemInstruction::AuthorizeNonceAccount)
        } else if t == 8 {
            Some(SystemInstruction::Allocate)
        } else if t == 9 {
            Some(SystemInstruction::AllocateWithSeed)
        } else if t == 10 {
            Some(SystemInstruction::AssignWithSeed)
        } else if t == 11 {
            Some(SystemInstruction::TransferWithSeed)
        } else if t == 12 {
            Some(SystemInstruction::UpgradeNonceAccount)
        } else {
            None
        }
    }
}

/// Tag decoding inverts tag encoding for every system instruction.
pub proof fn lemma_system_instruction_tag_roundtrip(i: SystemInstruction)
    ensures
        SystemInstruction::from_tag_spec(i.tag_spec()) == Some(i),
{
}

/// Parses an instruction payload addressed to `api_id`.
///
/// Succeeds exactly when the invocation's program id equals `api_id`,
/// the payload is nonempty, and its first byte is a known tag of `T`;
/// the decoded instruction and the argument bytes after the tag are
/// returned. A wrong program id is reported ahead of any payload
/// inspection.
pub fn parse_instruction<'a, T: InstructionKind>(
    api_id: &crate::address::Address,
    program_id: &crate::address::Address,
    data: &'a [u8],
) -> (r: Result<(T, &'a [u8]), AccountError>)
    ensures
        r is Ok <==> api_id@ == program_id@ && data@.len() > 0 && T::from_tag_spec(
            data@[0],
        ) is Some,
        r matches Ok(p) ==> Some(p.0) == T::from_tag_spec(data@[0]) && p.1@ =~= data@.skip(1),
        r is Err ==> r->Err_0 == (if api_id@ != program_id@ {
            AccountError::IncorrectProgramId
        } else {
            AccountError::InvalidInstructionData
        }),
{
    if !program_id.equals(api_id) {
        return Err(AccountError::IncorrectProgramId);
    }
    if data.len() == 0 {
        return Err(AccountError::InvalidInstructionData);
    }
    let tag = *slice_index_get(data, 0);
    match T::from_tag(tag) {
        Some(ix) => Ok((ix, slice_subrange(data, 1, data.len()))),
        None => Err(AccountError::InvalidInstructionData),
    }
}

/// The payload of a create-account request: the tag in four
/// little-endian bytes, the funding lamports, the data length, and the
/// new owner.
pub open spec fn create_account_payload(lamports: u64, space: u64, owner: Seq<u8>) -> Seq<u8> {
    seq![0u8, 0u8, 0u8, 0u8] + le_bytes_of(lamports as nat, 8) + le_bytes_of(space as nat, 8)
        + owner
}

/// Builds the payload of a create-account request.
pub fn create_account_ix_data(lamports: u64, space: u64, owner: &crate::address::Address) -> (r:
    Vec<u8>)
    ensures
        r@ =~= create_account_payload(lamports, space, owner@),
        r@.len() == 52,
{
    let mut out: Vec<u8> = Vec::new();
    out.push(SystemInstruction::CreateAccount.tag());
    out.push(0u8);
    out.push(0u8);
    out.push(0u8);
    let lamports_bytes = le_encode(lamports, 8);
    out.extend_from_slice(lamports_bytes.as_slice());
    let space_bytes = le_encode(space, 8);
    out.extend_from_slice(space_bytes.as_slice());
    out.extend_from_slice(&owner.bytes);
    out
}

/// The payload of a transfer request: the tag in four little-endian
/// bytes, then the amount.
pub open spec fn transfer_payload(amount: u64) -> Seq<u8> {
    seq![2u8, 0u8, 0u8, 0u8] + le_bytes_of(amount as nat, 8)
}

/// Builds the payload of a transfer request.
pub fn transfer_ix_data(amount: u64) -> (r: Vec<u8>)
    ensures
        r@ =~= transfer_payload(amount),
        r@.len() == 12,
{
    let mut out: Vec<u8> = Vec::new();
    out.push(SystemInstruction::Transfer.tag());
    out.push(0u8);
    out.push(0u8);
    out.push(0u8);
    let amount_bytes = le_encode(amount, 8);
    out.extend_from_slice(amount_bytes.as_slice());
    out
}

/// The payload of an allocate request: the tag in four little-endian
/// bytes, then the data length.
pub open spec fn allocate_payload(space: u64) -> Seq<u8> {
    seq![8u8, 0u8, 0u8, 0u8] + le_bytes_of(space as nat, 8)
}

/// Builds the payload of an allocate request.
pub fn allocate_ix_data(space: u64) -> (r: Vec<u8>)
    ensures
        r@ =~= allocate_payload(space),
        r@.len() == 12,
{
    let mut out: Vec<u8> = Vec::new();
    out.push(SystemInstruction::Allocate.tag());
    out.push(0u8);
    out.push(0u8);
    out.push(0u8);
    let space_bytes = le_encode(space, 8);
    out.extend_from_slice(space_bytes.as_slice());
    out
}

/// The payload of an assign request: the tag in four little-endian
/// bytes, then the new owner.
pub open spec fn assign_payload(owner: Seq<u8>) -> Seq<u8> {
    seq![1u8, 0u8, 0u8, 0u8] + owner
}

/// Builds the payload of an assign request.
pub fn assign_ix_data(owner: &crate::address::Address) -> (r: Vec<u8>)
    ensures
        r@ =~= assign_payload(owner@),
        r@.len() == 36,
{
    let mut out: Vec<u8> = Vec::new();
    out.push(SystemInstruction::Assign.tag());
    out.push(0u8);
    out.push(0u8);
    out.push(0u8);
    out.extend_from_slice(&owner.bytes);
    out
}

/// The rent-exempt minimum balance for `space` bytes of account data,
/// under the environment's default rent parameters: 3480 lamports per
/// byte-year on the data length plus a 128-byte storage overhead, paid
/// for two years.
pub open spec fn rent_minimum_balance_spec(space: nat) -> nat {
    (space + 128) * 6960
}

/// Computes the rent-exempt minimum balance for `space` bytes.
pub fn rent_minimum_balance(space: u64) -> (r: u64)
    requires
        (space + 128) * 6960 <= u64::MAX,
    ensures
        r as nat == rent_minimum_balance_spec(space as nat),
{
    (space + 128) * 6960
}

/// How an account buffer of a given size is to be brought into
/// existence under a program's ownership.
#[derive(Clone, Copy, Debug, PartialEq, Eq, Structural)]
pub enum AllocationPlan {
    /// The target holds no lamports yet: one create-account request,
    /// funded with the rent-exempt minimum.
    Create { lamports: u64, space: u64 },
    /// The target already holds lamports: top it up to the rent-exempt
    /// minimum if it is short (a zero top-up sends nothing), then
    /// allocate the space and assign the owner.
    Extend { top_up: u64, space: u64 },
}

/// Decides how to allocate `space` bytes for an account that currently
/// holds `current_lamports`: a fresh account is created outright, while
/// an already-funded account is topped up only by what rent exemption
/// still lacks, then allocated and assigned.
pub fn plan_allocation(current_lamports: u64, space: u64) -> (r: AllocationPlan)
    requires
        (space + 128) * 6960 <= u64::MAX,
    ensures
        current_lamports == 0 ==> r == (AllocationPlan::Create {
            lamports: rent_minimum_balance_spec(space as nat) as u64,
            space,
        }),
        current_lamports > 0 ==> r == (AllocationPlan::Extend {
            top_up: (if rent_minimum_balance_spec(space as nat) > current_lamports {
                (rent_minimum_balance_spec(space as nat) - current_lamports) as u64
            } else {
                0u64
            }),
            space,
        }),
{
    let minimum = rent_minimum_balance(space);
    if current_lamports == 0 {
        AllocationPlan::Create { lamports: minimum, space }
    } else {
        let top_up = if minimum > current_lamports {
            minimum - current_lamports
        } else {
            0
        };
        AllocationPlan::Extend { top_up, space }
    }
}

} // verus!
