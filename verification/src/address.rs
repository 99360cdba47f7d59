//! The 32-byte account address / authority identifier.

use vstd::prelude::*;

verus! {

/// A 32-byte account address. The same type also identifies an
/// authority (the program permitted to mutate an account) and a
/// program id.
#[derive(Clone, Copy, Debug)]
pub struct Address {
    pub bytes: [u8; 32],
}

impl View for Address {
    type V = Seq<u8>;

    open spec fn view(&self) -> Seq<u8> {
        self.bytes@
    }
}

impl Address {
    /// Wraps a 32-byte array as an address.
    pub fn new(bytes: [u8; 32]) -> (r: Address)
        ensures
            r@ == bytes@,
    {
        Address { bytes }
    }

    /// Byte-for-byte equality of two addresses.
    pub fn equals(&self, other: &Address) -> (r: bool)
        ensures
            r <==> self@ =~= other@,
    {
        let mut i: usize = 0;
        while i < 32
            invariant
                i <= 32,
                forall|j: int| 0 <= j < i ==> self@[j] == other@[j],
            decreases 32 - i,
        {
            if self.bytes[i] != other.bytes[i] {
                return false;
            }
            i = i + 1;
        }
        true
    }
}

/// The neutral authority to which closed accounts are relinquished,
/// and the owner of newly created accounts: the all-zero address.
pub open spec fn default_authority() -> Seq<u8> {
    Seq::new(32, |i: int| 0u8)
}

/// Returns the neutral (all-zero) authority address.
pub fn default_authority_address() -> (r: Address)
    ensures
        r@ =~= default_authority(),
{
    Address::new([0u8; 32])
}

/// The authority that owns every sysvar account.
pub open spec fn sysvar_authority() -> Seq<u8> {
    seq![
        6u8, 167u8, 213u8, 23u8, 24u8, 117u8, 247u8, 41u8, 199u8, 61u8, 147u8, 64u8, 143u8,
        33u8, 97u8, 32u8, 6u8, 126u8, 216u8, 140u8, 118u8, 224u8, 140u8, 40u8, 127u8, 193u8,
        148u8, 96u8, 0u8, 0u8, 0u8, 0u8,
    ]
}

/// Returns the sysvar authority address.
pub fn sysvar_authority_address() -> (r: Address)
    ensures
        r@ =~= sysvar_authority(),
{
    Address::new(
        [
            6u8, 167u8, 213u8, 23u8, 24u8, 117u8, 247u8, 41u8, 199u8, 61u8, 147u8, 64u8, 143u8,
            33u8, 97u8, 32u8, 6u8, 126u8, 216u8, 140u8, 118u8, 224u8, 140u8, 40u8, 127u8, 193u8,
            148u8, 96u8, 0u8, 0u8, 0u8, 0u8,
        ],
    )
}

} // verus!
