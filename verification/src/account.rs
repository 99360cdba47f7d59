//! The account handle: invocation-time metadata plus the data buffer,
//! with chainable validators, typed accessors, and the lamport-transfer
//! and close lifecycle.
//!
//! The execution environment supplies, per account and per invocation,
//! an address, an owning authority, a lamport balance, three flags and
//! a byte buffer. This module holds them in one explicit context struct
//! so every check is a pure function of values passed in.

use vstd::prelude::*;

use crate::address::{default_authority, sysvar_authority, Address};
use crate::error::AccountError;
use crate::pda::{pda_of, seeds_view};
use crate::record::{fixed_shape_ok, header_shape_ok, Discriminator, Record};

verus! {

/// One account, as seen during one invocation.
#[derive(Debug)]
pub struct Account {
    /// The account's address.
    pub key: Address,
    /// The authority permitted to mutate the account.
    pub owner: Address,
    /// The lamport balance.
    pub lamports: u64,
    /// Whether the account signed the current invocation.
    pub signer: bool,
    /// Whether the environment granted write access for this invocation.
    pub writable: bool,
    /// Whether the account holds executable code.
    pub executable: bool,
    /// The account's data buffer.
    pub data: Vec<u8>,
}

impl Account {
    /// The metadata of two account values agrees (everything except the
    /// data buffer).
    pub open spec fn meta_eq(self, other: Account) -> bool {
        &&& self.key@ == other.key@
        &&& self.owner@ == other.owner@
        &&& self.lamports == other.lamports
        &&& self.signer == other.signer
        &&& self.writable == other.writable
        &&& self.executable == other.executable
    }

    /// What the signer check reports.
    pub open spec fn check_signer(self) -> Result<(), AccountError> {
        if self.signer {
            Ok(())
        } else {
            Err(AccountError::MissingRequiredSignature)
        }
    }

    /// What the writable check reports. It deliberately reports
    /// `MissingRequiredSignature`, not a distinct kind: the error reuse
    /// is part of the observed contract and is kept as an open question
    /// rather than silently redefined.
    pub open spec fn check_writable(self) -> Result<(), AccountError> {
        if self.writable {
            Ok(())
        } else {
            Err(AccountError::MissingRequiredSignature)
        }
    }

    /// Requires the invocation-time signer flag.
    pub fn is_signer(&self) -> (r: Result<&Account, AccountError>)
        ensures
            r is Ok <==> self.signer,
            r matches Ok(a) ==> a == self,
            r is Err ==> r->Err_0 == AccountError::MissingRequiredSignature,
    {
        if !self.signer {
            return Err(AccountError::MissingRequiredSignature);
        }
        Ok(self)
    }

    /// Requires the invocation-time writable flag. Reports
    /// `MissingRequiredSignature` on failure (see [`Self::check_writable`]).
    pub fn is_writable(&self) -> (r: Result<&Account, AccountError>)
        ensures
            r is Ok <==> self.writable,
            r matches Ok(a) ==> a == self,
            r is Err ==> r->Err_0 == AccountError::MissingRequiredSignature,
    {
        if !self.writable {
            return Err(AccountError::MissingRequiredSignature);
        }
        Ok(self)
    }

    /// Requires the account to hold executable code.
    pub fn is_executable(&self) -> (r: Result<&Account, AccountError>)
        ensures
            r is Ok <==> self.executable,
            r matches Ok(a) ==> a == self,
            r is Err ==> r->Err_0 == AccountError::InvalidAccountData,
    {
        if !self.executable {
            return Err(AccountError::InvalidAccountData);
        }
        Ok(self)
    }

    /// Requires an empty data buffer (an uninitialized account).
    pub fn is_empty(&self) -> (r: Result<&Account, AccountError>)
        ensures
            r is Ok <==> self.data@.len() == 0,
            r matches Ok(a) ==> a == self,
            r is Err ==> r->Err_0 == AccountError::AccountAlreadyInitialized,
    {
        if self.data.len() != 0 {
            return Err(AccountError::AccountAlreadyInitialized);
        }
        Ok(self)
    }

    /// Requires the account's address to equal `address`.
    pub fn has_address(&self, address: &Address) -> (r: Result<&Account, AccountError>)
        ensures
            r is Ok <==> self.key@ == address@,
            r matches Ok(a) ==> a == self,
            r is Err ==> r->Err_0 == AccountError::InvalidAccountData,
    {
        if !self.key.equals(address) {
            return Err(AccountError::InvalidAccountData);
        }
        Ok(self)
    }

    /// Requires the account's owning authority to equal `owner`.
    pub fn has_owner(&self, owner: &Address) -> (r: Result<&Account, AccountError>)
        ensures
            r is Ok <==> self.owner@ == owner@,
            r matches Ok(a) ==> a == self,
            r is Err ==> r->Err_0 == AccountError::InvalidAccountOwner,
    {
        if !self.owner.equals(owner) {
            return Err(AccountError::InvalidAccountOwner);
        }
        Ok(self)
    }

    /// Requires the account to be the program `program_id`: the address
    /// must match, then the account must be executable.
    pub fn is_program(&self, program_id: &Address) -> (r: Result<&Account, AccountError>)
        ensures
            r is Ok <==> self.key@ == program_id@ && self.executable,
            r matches Ok(a) ==> a == self,
            r is Err ==> r->Err_0 == AccountError::InvalidAccountData,
    {
        self.has_address(program_id)?.is_executable()
    }

    /// Requires the account to be the sysvar with id `sysvar_id`: owned
    /// by the sysvar authority, then at the given address.
    pub fn is_sysvar(&self, sysvar_id: &Address) -> (r: Result<&Account, AccountError>)
        ensures
            r is Ok <==> self.owner@ == sysvar_authority() && self.key@ == sysvar_id@,
            r matches Ok(a) ==> a == self,
            r is Err ==> r->Err_0 == (if self.owner@ != sysvar_authority() {
                AccountError::InvalidAccountOwner
            } else {
                AccountError::InvalidAccountData
            }),
    {
        let authority = crate::address::sysvar_authority_address();
        self.has_owner(&authority)?.has_address(sysvar_id)
    }

    /// Requires the account to hold a record of type `T` belonging to
    /// `program_id`: the owner must match, then the buffer's first byte
    /// must equal the discriminator of `T`. This checks the tag only,
    /// not the full record shape; an empty buffer fails the tag check.
    pub fn is_type<T: Discriminator>(&self, program_id: &Address) -> (r: Result<
        &Account,
        AccountError,
    >)
        ensures
            r is Ok <==> self.owner@ == program_id@ && self.data@.len() > 0 && self.data@[0]
                == T::discriminator_spec(),
            r matches Ok(a) ==> a == self,
            r is Err ==> r->Err_0 == (if self.owner@ != program_id@ {
                AccountError::InvalidAccountOwner
            } else {
                AccountError::InvalidAccountData
            }),
    {
        self.has_owner(program_id)?;
        if self.data.len() == 0 {
            return Err(AccountError::InvalidAccountData);
        }
        if *vstd::slice::slice_index_get(self.data.as_slice(), 0) != T::discriminator() {
            return Err(AccountError::InvalidAccountData);
        }
        Ok(self)
    }

    /// Checks a caller-supplied condition of the account, reporting
    /// `InvalidAccountData` when it does not hold. The outcome is tied
    /// to what the condition's own contract allows it to return for
    /// this account.
    pub fn validate<F: Fn(&Account) -> bool>(&self, condition: F) -> (r: Result<
        &Account,
        AccountError,
    >)
        requires
            condition.requires((self,)),
        ensures
            r matches Ok(a) ==> a == self && condition.ensures((self,), true),
            r is Err ==> condition.ensures((self,), false),
            r is Err ==> r->Err_0 == AccountError::InvalidAccountData,
    {
        if condition(self) {
            Ok(self)
        } else {
            Err(AccountError::InvalidAccountData)
        }
    }

    /// As [`Self::validate`], reporting the caller's own error when the
    /// condition does not hold.
    pub fn validate_err<F: Fn(&Account) -> bool>(&self, condition: F, err: AccountError) -> (r:
        Result<&Account, AccountError>)
        requires
            condition.requires((self,)),
        ensures
            r matches Ok(a) ==> a == self && condition.ensures((self,), true),
            r is Err ==> condition.ensures((self,), false),
            r is Err ==> r->Err_0 == err,
    {
        if condition(self) {
            Ok(self)
        } else {
            Err(err)
        }
    }

    /// What the seed check reports: the program-derived address of
    /// `seeds` under `authority` must exist and equal the account's
    /// address.
    pub open spec fn check_seeds(
        self,
        seeds: Seq<Seq<u8>>,
        authority: Seq<u8>,
    ) -> Result<(), AccountError> {
        match pda_of(seeds, authority) {
            Some(p) => if self.key@ == p.0 {
                Ok(())
            } else {
                Err(AccountError::InvalidSeeds)
            },
            None => Err(AccountError::InvalidSeeds),
        }
    }

    /// Requires the account's address to be the program-derived address
    /// of `seeds` under `authority`. Fails when the derivation finds no
    /// off-curve address at all.
    pub fn has_seeds(&self, seeds: &Vec<Vec<u8>>, authority: &Address) -> (r: Result<
        &Account,
        AccountError,
    >)
        ensures
            r is Ok <==> self.check_seeds(seeds_view(seeds@), authority@) is Ok,
            r matches Ok(a) ==> a == self,
            r is Err ==> r->Err_0 == AccountError::InvalidSeeds,
    {
        match crate::pda::derive_pda(seeds, authority) {
            Some((address, _bump)) => {
                if !self.key.equals(&address) {
                    return Err(AccountError::InvalidSeeds);
                }
                Ok(self)
            },
            None => Err(AccountError::InvalidSeeds),
        }
    }

    /// What the bump-aware seed check reports: as [`Self::check_seeds`],
    /// and the derived bump must equal the caller-supplied one.
    pub open spec fn check_seeds_with_bump(
        self,
        seeds: Seq<Seq<u8>>,
        bump: u8,
        authority: Seq<u8>,
    ) -> Result<(), AccountError> {
        match pda_of(seeds, authority) {
            Some(p) => if self.key@ == p.0 && bump == p.1 {
                Ok(())
            } else {
                Err(AccountError::InvalidSeeds)
            },
            None => Err(AccountError::InvalidSeeds),
        }
    }

    /// Requires the account's address and the supplied bump to both
    /// match the derivation of `seeds` under `authority`.
    pub fn has_seeds_with_bump(
        &self,
        seeds: &Vec<Vec<u8>>,
        bump: u8,
        authority: &Address,
    ) -> (r: Result<&Account, AccountError>)
        ensures
            r is Ok <==> self.check_seeds_with_bump(seeds_view(seeds@), bump, authority@)
                is Ok,
            r matches Ok(a) ==> a == self,
            r is Err ==> r->Err_0 == AccountError::InvalidSeeds,
    {
        match crate::pda::derive_pda(seeds, authority) {
            Some((address, derived_bump)) => {
                if !self.key.equals(&address) || bump != derived_bump {
                    return Err(AccountError::InvalidSeeds);
                }
                Ok(self)
            },
            None => Err(AccountError::InvalidSeeds),
        }
    }

    /// Casts the account's buffer to a fixed record of type `T`, owned
    /// by `program_id`.
    ///
    /// The owner is checked before any byte of the buffer is
    /// interpreted; only then are the length and the discriminator
    /// checked and the body decoded.
    pub fn as_account<T: Record>(&self, program_id: &Address) -> (r: Result<T, AccountError>)
        ensures
            r is Ok <==> self.owner@ == program_id@ && fixed_shape_ok::<T>(self.data@),
            r matches Ok(v) ==> v == T::of_bytes(self.data@.skip(8)),
            r is Err ==> r->Err_0 == (if self.owner@ != program_id@ {
                AccountError::InvalidAccountOwner
            } else {
                AccountError::InvalidAccountData
            }),
    {
        self.has_owner(program_id)?;
        crate::record::try_from_bytes::<T>(self.data.as_slice())
    }

    /// Overwrites the account's record body with the encoding of `v`.
    ///
    /// This is the mutable counterpart of [`Self::as_account`]: it
    /// requires the environment to have granted write access, then
    /// checks owner and shape in the same order, and commits the new
    /// body only when every check passes. On failure the account is
    /// unchanged.
    pub fn write_account<T: Record>(&mut self, program_id: &Address, v: &T) -> (r: Result<
        (),
        AccountError,
    >)
        ensures
            r is Ok <==> old(self).writable && old(self).owner@ == program_id@
                && fixed_shape_ok::<T>(old(self).data@),
            r is Ok ==> final(self).data@ =~= old(self).data@.take(8) + v.to_bytes(),
            r is Err ==> final(self).data@ == old(self).data@,
            final(self).meta_eq(*old(self)),
            r is Err ==> r->Err_0 == (if !old(self).writable {
                AccountError::AccountBorrowFailed
            } else if old(self).owner@ != program_id@ {
                AccountError::InvalidAccountOwner
            } else {
                AccountError::InvalidAccountData
            }),
    {
        if !self.writable {
            return Err(AccountError::AccountBorrowFailed);
        }
        if !self.owner.equals(program_id) {
            return Err(AccountError::InvalidAccountOwner);
        }
        crate::record::try_write_bytes::<T>(&mut self.data, v)
    }

    /// Splits the account's buffer into a header record of type `H` and
    /// the remainder after it, with the owner checked first.
    pub fn as_account_with_header<'a, H: Record>(
        &'a self,
        program_id: &Address,
    ) -> (r: Result<(H, &'a [u8]), AccountError>)
        ensures
            r is Ok <==> self.owner@ == program_id@ && header_shape_ok::<H>(self.data@),
            r matches Ok(p) ==> p.0 == H::of_bytes(
                self.data@.subrange(8, 8 + H::byte_len_spec() as int),
            ),
            r matches Ok(p) ==> p.1@ =~= self.data@.skip(8 + H::byte_len_spec() as int),
            r is Err ==> r->Err_0 == (if self.owner@ != program_id@ {
                AccountError::InvalidAccountOwner
            } else {
                AccountError::InvalidAccountData
            }),
    {
        self.has_owner(program_id)?;
        crate::record::try_header_from_bytes::<H>(self.data.as_slice())
    }

    /// Overwrites the header region of the account's buffer with the
    /// encoding of `h`, leaving tag, reserved bytes and remainder
    /// unchanged; the mutable counterpart of
    /// [`Self::as_account_with_header`]. On failure the account is
    /// unchanged.
    pub fn write_account_header<H: Record>(&mut self, program_id: &Address, h: &H) -> (r: Result<
        (),
        AccountError,
    >)
        ensures
            r is Ok <==> old(self).writable && old(self).owner@ == program_id@
                && header_shape_ok::<H>(old(self).data@),
            r is Ok ==> final(self).data@ =~= old(self).data@.take(8) + h.to_bytes() + old(
                self,
            ).data@.skip(8 + H::byte_len_spec() as int),
            r is Err ==> final(self).data@ == old(self).data@,
            final(self).meta_eq(*old(self)),
            r is Err ==> r->Err_0 == (if !old(self).writable {
                AccountError::AccountBorrowFailed
            } else if old(self).owner@ != program_id@ {
                AccountError::InvalidAccountOwner
            } else {
                AccountError::InvalidAccountData
            }),
    {
        if !self.writable {
            return Err(AccountError::AccountBorrowFailed);
        }
        if !self.owner.equals(program_id) {
            return Err(AccountError::InvalidAccountOwner);
        }
        crate::record::try_write_header::<H>(&mut self.data, h)
    }

    /// Stamps the buffer's first byte with the discriminator of `T`,
    /// as done right after a program account's buffer is allocated.
    pub fn set_discriminator<T: Discriminator>(&mut self) -> (r: Result<(), AccountError>)
        ensures
            r is Ok <==> old(self).writable && old(self).data@.len() > 0,
            r is Ok ==> final(self).data@ =~= old(self).data@.update(
                0,
                T::discriminator_spec(),
            ),
            r is Err ==> final(self).data@ == old(self).data@,
            final(self).meta_eq(*old(self)),
            r is Err ==> r->Err_0 == (if !old(self).writable {
                AccountError::AccountBorrowFailed
            } else {
                AccountError::InvalidAccountData
            }),
    {
        if !self.writable {
            return Err(AccountError::AccountBorrowFailed);
        }
        if self.data.len() == 0 {
            return Err(AccountError::InvalidAccountData);
        }
        self.data.set(0, T::discriminator());
        Ok(())
    }

    /// Moves `lamports` from this account to `to`.
    ///
    /// The caller must establish that the balance suffices and that the
    /// recipient's balance cannot overflow; within those bounds the sum
    /// of the two balances is conserved. (The observed behavior on an
    /// excessive amount is an unchecked underflow; this interface
    /// resolves that open question by excluding the input instead.)
    pub fn send(&mut self, lamports: u64, to: &mut Account)
        requires
            lamports <= old(self).lamports,
            old(to).lamports + lamports <= u64::MAX,
        ensures
            final(self).lamports == old(self).lamports - lamports,
            final(to).lamports == old(to).lamports + lamports,
            final(self).lamports + final(to).lamports == old(self).lamports + old(
                to,
            ).lamports,
            final(self).data@ == old(self).data@,
            final(to).data@ == old(to).data@,
            final(self).key@ == old(self).key@,
            final(self).owner@ == old(self).owner@,
            final(self).signer == old(self).signer,
            final(self).writable == old(self).writable,
            final(self).executable == old(self).executable,
            final(to).key@ == old(to).key@,
            final(to).owner@ == old(to).owner@,
            final(to).signer == old(to).signer,
            final(to).writable == old(to).writable,
            final(to).executable == old(to).executable,
    {
        self.lamports = self.lamports - lamports;
        to.lamports = to.lamports + lamports;
    }

    /// Moves `lamports` from `from` into this account: the inverse
    /// direction of [`Self::send`], for the build variant in which the
    /// invoking program is `from`'s authority and may debit it
    /// directly. (When it is not, the transfer must be requested from
    /// the system authority by the embedding program.)
    pub fn collect(&mut self, lamports: u64, from: &mut Account)
        requires
            lamports <= old(from).lamports,
            old(self).lamports + lamports <= u64::MAX,
        ensures
            final(from).lamports == old(from).lamports - lamports,
            final(self).lamports == old(self).lamports + lamports,
            final(self).lamports + final(from).lamports == old(self).lamports + old(
                from,
            ).lamports,
            final(self).data@ == old(self).data@,
            final(from).data@ == old(from).data@,
            final(self).key@ == old(self).key@,
            final(self).owner@ == old(self).owner@,
            final(self).signer == old(self).signer,
            final(self).writable == old(self).writable,
            final(self).executable == old(self).executable,
            final(from).key@ == old(from).key@,
            final(from).owner@ == old(from).owner@,
            final(from).signer == old(from).signer,
            final(from).writable == old(from).writable,
            final(from).executable == old(from).executable,
    {
        from.lamports = from.lamports - lamports;
        self.lamports = self.lamports + lamports;
    }

    /// Closes the account: drains its whole balance to `to`, truncates
    /// its data buffer to zero length, and relinquishes ownership to
    /// the neutral authority so the environment can reclaim it. The
    /// data is cleared in the same step as the ownership change, so no
    /// later observer can read stale typed content under a new owner.
    pub fn close(&mut self, to: &mut Account)
        requires
            old(to).lamports + old(self).lamports <= u64::MAX,
        ensures
            final(self).data@.len() == 0,
            final(self).lamports == 0,
            final(self).owner@ == default_authority(),
            final(to).lamports == old(to).lamports + old(self).lamports,
            final(to).data@ == old(to).data@,
            final(self).key@ == old(self).key@,
            final(self).signer == old(self).signer,
            final(self).writable == old(self).writable,
            final(self).executable == old(self).executable,
            final(to).key@ == old(to).key@,
            final(to).owner@ == old(to).owner@,
            final(to).signer == old(to).signer,
            final(to).writable == old(to).writable,
            final(to).executable == old(to).executable,
    {
        to.lamports = to.lamports + self.lamports;
        self.lamports = 0;
        self.owner = crate::address::default_authority_address();
        self.data.clear();
    }
}

/// Derivation and the seed check agree: an account whose address is
/// the derived program address for `seeds` under `authority` passes
/// the seed check, passes the bump-aware check with the derived bump,
/// and fails the bump-aware check with every other bump.
pub proof fn lemma_derive_matches_seeds(
    a: Account,
    seeds: Seq<Seq<u8>>,
    authority: Seq<u8>,
    bump: u8,
)
    requires
        pda_of(seeds, authority) == Some((a.key@, bump)),
    ensures
        a.check_seeds(seeds, authority) is Ok,
        a.check_seeds_with_bump(seeds, bump, authority) is Ok,
        forall|other: u8|
            other != bump ==> a.check_seeds_with_bump(seeds, other, authority) is Err,
{
}

/// Validator chains fail on the first violated predicate, left to
/// right: on an account that is neither signer nor writable, the chain
/// `is_signer` then `is_writable` reports the signer check's error.
pub proof fn lemma_chain_short_circuit(a: Account)
    requires
        !a.signer,
    ensures
        ({
            let chained = match a.check_signer() {
                Ok(u) => a.check_writable(),
                Err(e) => Err(e),
            };
            chained == a.check_signer()
        }),
{
}

} // verus!
