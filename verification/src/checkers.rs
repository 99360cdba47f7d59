//! Validated account handles.
//!
//! Each handle wraps a reference to an account that has passed the
//! checks its constructor performs; holding the handle is the proof
//! that the checks passed. The handles carry no data of their own.

use vstd::prelude::*;

use crate::account::Account;
use crate::address::{default_authority, Address};
use crate::error::AccountError;
use crate::pda::seeds_view;

verus! {

/// The id of the token program.
pub open spec fn token_authority() -> Seq<u8> {
    seq![
        6u8, 221u8, 246u8, 225u8, 215u8, 101u8, 161u8, 147u8, 217u8, 203u8, 225u8, 70u8,
        206u8, 235u8, 121u8, 172u8, 28u8, 180u8, 133u8, 237u8, 95u8, 91u8, 55u8, 145u8, 58u8,
        140u8, 245u8, 133u8, 126u8, 255u8, 0u8, 169u8,
    ]
}

/// Returns the id of the token program.
pub fn token_authority_address() -> (r: Address)
    ensures
        r@ =~= token_authority(),
{
    Address::new(
        [
            6u8, 221u8, 246u8, 225u8, 215u8, 101u8, 161u8, 147u8, 217u8, 203u8, 225u8, 70u8,
            206u8, 235u8, 121u8, 172u8, 28u8, 180u8, 133u8, 237u8, 95u8, 91u8, 55u8, 145u8,
            58u8, 140u8, 245u8, 133u8, 126u8, 255u8, 0u8, 169u8,
        ],
    )
}

/// The id of the extensions-capable token program.
pub open spec fn token_extensions_authority() -> Seq<u8> {
    seq![
        6u8, 221u8, 246u8, 225u8, 238u8, 117u8, 143u8, 222u8, 24u8, 66u8, 93u8, 188u8, 228u8,
        108u8, 205u8, 218u8, 182u8, 26u8, 252u8, 77u8, 131u8, 185u8, 13u8, 39u8, 254u8, 189u8,
        249u8, 40u8, 216u8, 161u8, 139u8, 252u8,
    ]
}

/// Returns the id of the extensions-capable token program.
pub fn token_extensions_authority_address() -> (r: Address)
    ensures
        r@ =~= token_extensions_authority(),
{
    Address::new(
        [
            6u8, 221u8, 246u8, 225u8, 238u8, 117u8, 143u8, 222u8, 24u8, 66u8, 93u8, 188u8,
            228u8, 108u8, 205u8, 218u8, 182u8, 26u8, 252u8, 77u8, 131u8, 185u8, 13u8, 39u8,
            254u8, 189u8, 249u8, 40u8, 216u8, 161u8, 139u8, 252u8,
        ],
    )
}

/// Whether `data[at .. at + 32]` exists and equals the address.
pub open spec fn range_is_address(data: Seq<u8>, at: int, address: Seq<u8>) -> bool {
    at + 32 <= data.len() && data.subrange(at, at + 32) =~= address
}

/// Compares a 32-byte range of a buffer with an address; a buffer too
/// short to hold the range compares unequal.
fn range_equals_address(data: &Vec<u8>, at: usize, address: &Address) -> (r: bool)
    requires
        at + 32 <= usize::MAX,
    ensures
        r <==> range_is_address(data@, at as int, address@),
{
    let n = data.len();
    if n < 32 || at > n - 32 {
        return false;
    }
    let mut i: usize = 0;
    while i < 32
        invariant
            i <= 32,
            at + 32 <= n,
            n == data@.len(),
            forall|j: int| 0 <= j < i ==> data@[at + j] == address@[j],
        decreases 32 - i,
    {
        if *vstd::slice::slice_index_get(data.as_slice(), at + i) != address.bytes[i] {
            return false;
        }
        i = i + 1;
    }
    proof {
        assert(data@.subrange(at as int, at + 32) =~= address@);
    }
    true
}

/// A handle to an account that signed the invocation.
#[derive(Debug)]
pub struct Signer<'a> {
    pub info: &'a Account,
}

impl<'a> Signer<'a> {
    /// Validates that the account signed the invocation.
    pub fn new(info: &'a Account) -> (r: Result<Signer<'a>, AccountError>)
        ensures
            r is Ok <==> info.signer,
            r matches Ok(s) ==> s.info == info,
            r is Err ==> r->Err_0 == AccountError::MissingRequiredSignature,
    {
        if !info.signer {
            return Err(AccountError::MissingRequiredSignature);
        }
        Ok(Signer { info })
    }

    /// Validates that the account signed the invocation and has the
    /// given address. A wrong address reports the missing-signature
    /// kind as well.
    pub fn new_with_key(info: &'a Account, key: &Address) -> (r: Result<
        Signer<'a>,
        AccountError,
    >)
        ensures
            r is Ok <==> info.signer && info.key@ == key@,
            r matches Ok(s) ==> s.info == info,
            r is Err ==> r->Err_0 == AccountError::MissingRequiredSignature,
    {
        let signer = Signer::new(info)?;
        if !signer.info.key.equals(key) {
            return Err(AccountError::MissingRequiredSignature);
        }
        Ok(signer)
    }

    /// Validates a fee payer: writable first, then signer.
    pub fn new_payer(info: &'a Account) -> (r: Result<Signer<'a>, AccountError>)
        ensures
            r is Ok <==> info.writable && info.signer,
            r matches Ok(s) ==> s.info == info,
            r is Err ==> r->Err_0 == (if !info.writable {
                AccountError::InvalidInstructionData
            } else {
                AccountError::MissingRequiredSignature
            }),
    {
        if !info.writable {
            return Err(AccountError::InvalidInstructionData);
        }
        if !info.signer {
            return Err(AccountError::MissingRequiredSignature);
        }
        Ok(Signer { info })
    }
}

/// A handle to an account at a program-derived address.
#[derive(Debug)]
pub struct Pda<'a> {
    pub info: &'a Account,
}

impl<'a> Pda<'a> {
    /// Validates that the account sits at a known address.
    pub fn new_with_known_address(info: &'a Account, known_address: &Address) -> (r: Result<
        Pda<'a>,
        AccountError,
    >)
        ensures
            r is Ok <==> info.key@ == known_address@,
            r matches Ok(p) ==> p.info == info,
            r is Err ==> r->Err_0 == AccountError::InvalidInstructionData,
    {
        if !info.key.equals(known_address) {
            return Err(AccountError::InvalidInstructionData);
        }
        Ok(Pda { info })
    }

    /// Validates that the account sits at the address derived from
    /// `seeds` under `program_id`, with the given bump.
    pub fn new_with_seeds(
        info: &'a Account,
        seeds: &Vec<Vec<u8>>,
        bump: u8,
        program_id: &Address,
    ) -> (r: Result<Pda<'a>, AccountError>)
        ensures
            r is Ok <==> info.check_seeds_with_bump(seeds_view(seeds@), bump, program_id@)
                is Ok,
            r matches Ok(p) ==> p.info == info,
            r is Err ==> r->Err_0 == AccountError::InvalidSeeds,
    {
        info.has_seeds_with_bump(seeds, bump, program_id)?;
        Ok(Pda { info })
    }
}

/// A handle to an account not yet initialized: empty and still owned
/// by the neutral authority.
#[derive(Debug)]
pub struct EmptyAccount<'a> {
    pub info: &'a Account,
}

impl<'a> EmptyAccount<'a> {
    /// Validates that the account's buffer is empty and its owner is
    /// the neutral authority.
    pub fn new(info: &'a Account) -> (r: Result<EmptyAccount<'a>, AccountError>)
        ensures
            r is Ok <==> info.data@.len() == 0 && info.owner@ == default_authority(),
            r matches Ok(e) ==> e.info == info,
            r is Err ==> r->Err_0 == (if info.data@.len() != 0 {
                AccountError::InvalidAccountData
            } else {
                AccountError::IllegalOwner
            }),
    {
        if info.data.len() != 0 {
            return Err(AccountError::InvalidAccountData);
        }
        let neutral = crate::address::default_authority_address();
        if !info.owner.equals(&neutral) {
            return Err(AccountError::IllegalOwner);
        }
        Ok(EmptyAccount { info })
    }

    /// As [`Self::new`], additionally pinning the account's address and
    /// its writable flag.
    pub fn new_with_key(info: &'a Account, key: &Address, writable: bool) -> (r: Result<
        EmptyAccount<'a>,
        AccountError,
    >)
        ensures
            r is Ok <==> info.data@.len() == 0 && info.owner@ == default_authority()
                && info.key@ == key@ && info.writable == writable,
            r matches Ok(e) ==> e.info == info,
            r is Err ==> r->Err_0 == (if info.data@.len() != 0 {
                AccountError::InvalidAccountData
            } else if info.owner@ != default_authority() {
                AccountError::IllegalOwner
            } else {
                AccountError::InvalidAccountData
            }),
    {
        let empty = EmptyAccount::new(info)?;
        if !empty.info.key.equals(key) {
            return Err(AccountError::InvalidAccountData);
        }
        if empty.info.writable != writable {
            return Err(AccountError::InvalidAccountData);
        }
        Ok(empty)
    }
}

/// A handle to a sysvar account (owned by the sysvar authority).
#[derive(Debug)]
pub struct SysvarAccount<'a> {
    pub info: &'a Account,
}

impl<'a> SysvarAccount<'a> {
    /// Validates that the account is owned by the sysvar authority.
    pub fn new(info: &'a Account) -> (r: Result<SysvarAccount<'a>, AccountError>)
        ensures
            r is Ok <==> info.owner@ == crate::address::sysvar_authority(),
            r matches Ok(s) ==> s.info == info,
            r is Err ==> r->Err_0 == AccountError::InvalidAccountOwner,
    {
        let authority = crate::address::sysvar_authority_address();
        if !info.owner.equals(&authority) {
            return Err(AccountError::InvalidAccountOwner);
        }
        Ok(SysvarAccount { info })
    }
}

/// A handle to a non-executable account owned by a given program.
#[derive(Debug)]
pub struct ProgramAccount<'a> {
    pub info: &'a Account,
}

impl<'a> ProgramAccount<'a> {
    /// Validates that the account is owned by `program_id` and is not
    /// itself executable. Both failures report the ownership kind.
    pub fn new(info: &'a Account, program_id: &Address) -> (r: Result<
        ProgramAccount<'a>,
        AccountError,
    >)
        ensures
            r is Ok <==> info.owner@ == program_id@ && !info.executable,
            r matches Ok(p) ==> p.info == info,
            r is Err ==> r->Err_0 == AccountError::InvalidAccountOwner,
    {
        if !info.owner.equals(program_id) {
            return Err(AccountError::InvalidAccountOwner);
        }
        if info.executable {
            return Err(AccountError::InvalidAccountOwner);
        }
        Ok(ProgramAccount { info })
    }
}

/// A handle to a validated token account. A token account's buffer
/// stores its mint's address at offset 0 and its holder's address at
/// offset 32.
#[derive(Debug)]
pub struct TokenAccountInfo<'a> {
    pub info: &'a Account,
}

impl<'a> TokenAccountInfo<'a> {
    /// Validates that the account is owned by one of the two token
    /// programs and holds tokens of the given mint.
    pub fn new(info: &'a Account, mint: &Address) -> (r: Result<
        TokenAccountInfo<'a>,
        AccountError,
    >)
        ensures
            r is Ok <==> (info.owner@ == token_authority() || info.owner@
                == token_extensions_authority()) && range_is_address(info.data@, 0, mint@),
            r matches Ok(t) ==> t.info == info,
            r is Err ==> r->Err_0 == (if info.owner@ != token_authority() && info.owner@
                != token_extensions_authority() {
                AccountError::IllegalOwner
            } else {
                AccountError::InvalidAccountData
            }),
    {
        let token = token_authority_address();
        let extensions = token_extensions_authority_address();
        if !info.owner.equals(&token) && !info.owner.equals(&extensions) {
            return Err(AccountError::IllegalOwner);
        }
        if !range_equals_address(&info.data, 0, mint) {
            return Err(AccountError::InvalidAccountData);
        }
        Ok(TokenAccountInfo { info })
    }

    /// Reads the holder's address from the account's buffer.
    pub fn get_owner(&self) -> (r: Result<Address, AccountError>)
        ensures
            r is Ok <==> self.info.data@.len() >= 64,
            r matches Ok(a) ==> a@ =~= self.info.data@.subrange(32, 64),
            r is Err ==> r->Err_0 == AccountError::InvalidAccountData,
    {
        if self.info.data.len() < 64 {
            return Err(AccountError::InvalidAccountData);
        }
        let mut bytes = [0u8; 32];
        let mut i: usize = 0;
        while i < 32
            invariant
                i <= 32,
                self.info.data@.len() >= 64,
                forall|j: int| 0 <= j < i ==> bytes@[j] == self.info.data@[32 + j],
            decreases 32 - i,
        {
            bytes[i] = *vstd::slice::slice_index_get(self.info.data.as_slice(), 32 + i);
            i = i + 1;
        }
        proof {
            assert(bytes@ =~= self.info.data@.subrange(32, 64));
        }
        Ok(Address::new(bytes))
    }

    /// As [`Self::new`], additionally requiring the holder recorded in
    /// the buffer to be `owner`.
    pub fn new_with_owner(info: &'a Account, mint: &Address, owner: &Address) -> (r: Result<
        TokenAccountInfo<'a>,
        AccountError,
    >)
        ensures
            r is Ok <==> (info.owner@ == token_authority() || info.owner@
                == token_extensions_authority()) && range_is_address(info.data@, 0, mint@)
                && range_is_address(info.data@, 32, owner@),
            r matches Ok(t) ==> t.info == info,
            r is Err ==> r->Err_0 == (if info.owner@ != token_authority() && info.owner@
                != token_extensions_authority() {
                AccountError::IllegalOwner
            } else if !range_is_address(info.data@, 0, mint@) {
                AccountError::InvalidAccountData
            } else {
                AccountError::IllegalOwner
            }),
    {
        let token_account = TokenAccountInfo::new(info, mint)?;
        if !range_equals_address(&info.data, 32, owner) {
            return Err(AccountError::IllegalOwner);
        }
        Ok(token_account)
    }

    /// As [`Self::new_with_owner`], additionally pinning the account's
    /// own address, which is checked first.
    pub fn new_with_owner_and_key(
        info: &'a Account,
        mint: &Address,
        owner: &Address,
        key: &Address,
    ) -> (r: Result<TokenAccountInfo<'a>, AccountError>)
        ensures
            r is Ok <==> info.key@ == key@ && (info.owner@ == token_authority()
                || info.owner@ == token_extensions_authority()) && range_is_address(
                info.data@,
                0,
                mint@,
            ) && range_is_address(info.data@, 32, owner@),
            r matches Ok(t) ==> t.info == info,
            r is Err ==> r->Err_0 == (if info.key@ != key@ {
                AccountError::InvalidInstructionData
            } else if info.owner@ != token_authority() && info.owner@
                != token_extensions_authority() {
                AccountError::IllegalOwner
            } else if !range_is_address(info.data@, 0, mint@) {
                AccountError::InvalidAccountData
            } else {
                AccountError::IllegalOwner
            }),
    {
        if !info.key.equals(key) {
            return Err(AccountError::InvalidInstructionData);
        }
        TokenAccountInfo::new_with_owner(info, mint, owner)
    }
}

} // verus!
