//! Worked examples of the record layout convention.
//!
//! `SampleRecord` is a fixed record with two 64-bit fields, and
//! `SampleHeader` is a header record whose one field declares the
//! element count of a trailing array of 32-bit values. They show how a
//! program registers its own record types, and they give the codec
//! concrete types to exercise.

use vstd::prelude::*;

use crate::bytes::{
    le_bytes_of, le_decode, le_encode, le_value_of, lemma_le_bytes_of_len,
    lemma_le_bytes_of_value, lemma_le_roundtrip, lemma_le_value_of_bound, pow256,
};
use crate::record::{Discriminator, Record};

verus! {

use vstd::slice::slice_subrange;

/// `256^8`, stated once so proofs can name it.
pub proof fn lemma_pow256_8()
    ensures
        pow256(8) == 0x1_0000_0000_0000_0000,
{
    reveal_with_fuel(pow256, 9);
}

/// A fixed record with two 64-bit fields, tagged 7.
#[derive(Clone, Copy, Debug, PartialEq, Eq, Structural)]
pub struct SampleRecord {
    pub field0: u64,
    pub field1: u64,
}

impl Discriminator for SampleRecord {
    open spec fn discriminator_spec() -> u8 {
        7
    }

    fn discriminator() -> u8 {
        7
    }
}

impl Record for SampleRecord {
    open spec fn byte_len_spec() -> nat {
        16
    }

    open spec fn to_bytes(&self) -> Seq<u8> {
        le_bytes_of(self.field0 as nat, 8) + le_bytes_of(self.field1 as nat, 8)
    }

    open spec fn of_bytes(b: Seq<u8>) -> Self {
        SampleRecord {
            field0: le_value_of(b.subrange(0, 8)) as u64,
            field1: le_value_of(b.subrange(8, 16)) as u64,
        }
    }

    proof fn lemma_to_bytes_len(&self) {
        lemma_le_bytes_of_len(self.field0 as nat, 8);
        lemma_le_bytes_of_len(self.field1 as nat, 8);
    }

    proof fn lemma_of_to_bytes(&self) {
        lemma_le_bytes_of_len(self.field0 as nat, 8);
        lemma_le_bytes_of_len(self.field1 as nat, 8);
        lemma_pow256_8();
        assert(self.to_bytes().subrange(0, 8) =~= le_bytes_of(self.field0 as nat, 8));
        assert(self.to_bytes().subrange(8, 16) =~= le_bytes_of(self.field1 as nat, 8));
        lemma_le_roundtrip(self.field0 as nat, 8);
        lemma_le_roundtrip(self.field1 as nat, 8);
    }

    proof fn lemma_to_of_bytes(b: Seq<u8>) {
        let lo = b.subrange(0, 8);
        let hi = b.subrange(8, 16);
        lemma_le_value_of_bound(lo);
        lemma_le_value_of_bound(hi);
        lemma_pow256_8();
        lemma_le_bytes_of_value(lo);
        lemma_le_bytes_of_value(hi);
        assert(Self::of_bytes(b).to_bytes() =~= b);
    }

    fn byte_len() -> usize {
        16
    }

    fn read(b: &[u8]) -> (r: Self) {
        let f0 = le_decode(slice_subrange(b, 0, 8));
        let f1 = le_decode(slice_subrange(b, 8, 16));
        SampleRecord { field0: f0, field1: f1 }
    }

    fn emit(&self) -> (r: Vec<u8>) {
        let mut out = le_encode(self.field0, 8);
        let hi = le_encode(self.field1, 8);
        out.extend_from_slice(hi.as_slice());
        proof {
            assert(out@ =~= self.to_bytes());
        }
        out
    }
}

/// A header record whose field declares the element count of a trailing
/// array of 32-bit values, tagged 0.
#[derive(Clone, Copy, Debug, PartialEq, Eq, Structural)]
pub struct SampleHeader {
    pub field_len: u64,
}

impl Discriminator for SampleHeader {
    open spec fn discriminator_spec() -> u8 {
        0
    }

    fn discriminator() -> u8 {
        0
    }
}

impl Record for SampleHeader {
    open spec fn byte_len_spec() -> nat {
        8
    }

    open spec fn to_bytes(&self) -> Seq<u8> {
        le_bytes_of(self.field_len as nat, 8)
    }

    open spec fn of_bytes(b: Seq<u8>) -> Self {
        SampleHeader { field_len: le_value_of(b) as u64 }
    }

    proof fn lemma_to_bytes_len(&self) {
        lemma_le_bytes_of_len(self.field_len as nat, 8);
    }

    proof fn lemma_of_to_bytes(&self) {
        lemma_pow256_8();
        lemma_le_roundtrip(self.field_len as nat, 8);
    }

    proof fn lemma_to_of_bytes(b: Seq<u8>) {
        lemma_le_value_of_bound(b);
        lemma_pow256_8();
        lemma_le_bytes_of_value(b);
    }

    fn byte_len() -> usize {
        8
    }

    fn read(b: &[u8]) -> (r: Self) {
        SampleHeader { field_len: le_decode(b) }
    }

    fn emit(&self) -> (r: Vec<u8>) {
        le_encode(self.field_len, 8)
    }
}

} // verus!
