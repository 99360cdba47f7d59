//! Discriminator-tagged records and the bounds-checked cast machinery.
//!
//! A record is stored in a buffer as `[1-byte discriminator][7 reserved
//! bytes][body]`. For a fixed record the body is exactly the record's
//! encoding; for a header-plus-remainder record the body starts with the
//! header's encoding and is followed by trailing arrays whose element
//! counts are declared by header fields.

use vstd::prelude::*;

use crate::bytes::{le_value_of, pow256};
use crate::error::AccountError;

verus! {

use vstd::slice::{slice_index_get, slice_subrange};

/// A type tagged by a one-byte discriminator, stored at offset 0 of any
/// buffer holding a value of the type.
pub trait Discriminator {
    /// The tag, as a specification-level constant.
    spec fn discriminator_spec() -> u8;

    /// Returns the tag.
    fn discriminator() -> (r: u8)
        ensures
            r == Self::discriminator_spec(),
    ;
}

/// A plain-old-data record: a type in bijection with byte sequences of a
/// fixed length, so it can be decoded from and encoded into a buffer
/// without any interpretation beyond the byte mapping itself.
pub trait Record: Discriminator + Sized {
    /// The body length in bytes.
    spec fn byte_len_spec() -> nat;

    /// The encoding of a value.
    spec fn to_bytes(&self) -> Seq<u8>;

    /// The value encoded by a body of the right length.
    spec fn of_bytes(b: Seq<u8>) -> Self;

    /// The encoding has exactly `byte_len_spec` bytes.
    proof fn lemma_to_bytes_len(&self)
        ensures
            self.to_bytes().len() == Self::byte_len_spec(),
    ;

    /// Decoding inverts encoding.
    proof fn lemma_of_to_bytes(&self)
        ensures
            Self::of_bytes(self.to_bytes()) == *self,
    ;

    /// Encoding inverts decoding.
    proof fn lemma_to_of_bytes(b: Seq<u8>)
        requires
            b.len() == Self::byte_len_spec(),
        ensures
            Self::of_bytes(b).to_bytes() =~= b,
    ;

    /// Returns the body length.
    fn byte_len() -> (n: usize)
        ensures
            n as nat == Self::byte_len_spec(),
    ;

    /// Decodes a body of exactly the right length.
    fn read(b: &[u8]) -> (r: Self)
        requires
            b@.len() == Self::byte_len_spec(),
        ensures
            r == Self::of_bytes(b@),
    ;

    /// Encodes the value.
    fn emit(&self) -> (r: Vec<u8>)
        ensures
            r@ == self.to_bytes(),
    ;
}

/// Whether a buffer has exactly the shape of a fixed record of type `T`:
/// the exact length and the right discriminator byte.
pub open spec fn fixed_shape_ok<T: Record>(data: Seq<u8>) -> bool {
    &&& data.len() == 8 + T::byte_len_spec()
    &&& data[0] == T::discriminator_spec()
}

/// Whether a buffer can hold a header record of type `H` followed by a
/// remainder: at least the header's length, and the right discriminator.
pub open spec fn header_shape_ok<H: Record>(data: Seq<u8>) -> bool {
    &&& data.len() >= 8 + H::byte_len_spec()
    &&& data[0] == H::discriminator_spec()
}

/// The full buffer encoding of a fixed record: discriminator byte, seven
/// zeroed reserved bytes, then the body.
pub open spec fn record_bytes<T: Record>(v: T) -> Seq<u8> {
    seq![T::discriminator_spec(), 0u8, 0u8, 0u8, 0u8, 0u8, 0u8, 0u8] + v.to_bytes()
}

/// Builds the full buffer encoding of a fixed record: the discriminator
/// byte, seven zeroed reserved bytes, then the record body.
pub fn encode_record<T: Record>(v: &T) -> (r: Vec<u8>)
    ensures
        r@ =~= record_bytes(*v),
{
    let mut out: Vec<u8> = Vec::new();
    out.push(T::discriminator());
    let mut i: usize = 0;
    while i < 7
        invariant
            i <= 7,
            out@.len() == 1 + i,
            out@[0] == T::discriminator_spec(),
            forall|j: int| 1 <= j < out@.len() ==> out@[j] == 0u8,
        decreases 7 - i,
    {
        out.push(0u8);
        i = i + 1;
    }
    let body = v.emit();
    out.extend_from_slice(body.as_slice());
    out
}

/// Round trip: the full record encoding of any value has the shape of a
/// fixed record of its type, and decoding its body yields the value back.
pub proof fn lemma_record_roundtrip<T: Record>(v: T)
    ensures
        fixed_shape_ok::<T>(record_bytes(v)),
        T::of_bytes(record_bytes(v).skip(8)) == v,
{
    v.lemma_to_bytes_len();
    assert(record_bytes(v).skip(8) =~= v.to_bytes());
    v.lemma_of_to_bytes();
}

/// Casts a buffer to a fixed record of type `T`.
///
/// Succeeds exactly when the buffer length is `8 + T::byte_len()` and
/// byte 0 equals the discriminator of `T`; a buffer of any other length
/// fails even with a correct tag, and a buffer with a wrong tag fails
/// whatever its length or content.
pub fn try_from_bytes<T: Record>(data: &[u8]) -> (r: Result<T, AccountError>)
    ensures
        r is Ok <==> fixed_shape_ok::<T>(data@),
        r is Ok ==> r->Ok_0 == T::of_bytes(data@.skip(8)),
        r is Err ==> r->Err_0 == AccountError::InvalidAccountData,
{
    let n = data.len();
    let size = T::byte_len();
    if n < 8 || n - 8 != size {
        return Err(AccountError::InvalidAccountData);
    }
    if *slice_index_get(data, 0) != T::discriminator() {
        return Err(AccountError::InvalidAccountData);
    }
    let body = slice_subrange(data, 8, n);
    Ok(T::read(body))
}

/// Overwrites the body of a fixed record buffer with the encoding of `v`,
/// leaving the discriminator and the reserved bytes unchanged.
///
/// Succeeds exactly when the buffer already has the shape of a record of
/// type `T`; on failure the buffer is unchanged.
pub fn try_write_bytes<T: Record>(data: &mut Vec<u8>, v: &T) -> (r: Result<
    (),
    AccountError,
>)
    ensures
        r is Ok <==> fixed_shape_ok::<T>(old(data)@),
        r is Ok ==> final(data)@ =~= old(data)@.take(8) + v.to_bytes(),
        r is Err ==> final(data)@ == old(data)@,
        r is Err ==> r->Err_0 == AccountError::InvalidAccountData,
{
    let n = data.len();
    let size = T::byte_len();
    if n < 8 || n - 8 != size {
        return Err(AccountError::InvalidAccountData);
    }
    if *slice_index_get(data.as_slice(), 0) != T::discriminator() {
        return Err(AccountError::InvalidAccountData);
    }
    let body = v.emit();
    proof {
        v.lemma_to_bytes_len();
    }
    data.truncate(8);
    data.extend_from_slice(body.as_slice());
    Ok(())
}

/// Splits a buffer into a header record of type `H` and the remainder
/// that follows it.
///
/// Succeeds exactly when the buffer holds at least `8 + H::byte_len()`
/// bytes and byte 0 equals the discriminator of `H`. The remainder is
/// everything after the header and may be empty.
pub fn try_header_from_bytes<'a, H: Record>(data: &'a [u8]) -> (r: Result<
    (H, &'a [u8]),
    AccountError,
>)
    ensures
        r is Ok <==> header_shape_ok::<H>(data@),
        r is Ok ==> r->Ok_0.0 == H::of_bytes(
            data@.subrange(8, 8 + H::byte_len_spec() as int),
        ),
        r is Ok ==> r->Ok_0.1@ =~= data@.skip(8 + H::byte_len_spec() as int),
        r is Err ==> r->Err_0 == AccountError::InvalidAccountData,
{
    let n = data.len();
    let size = H::byte_len();
    if n < 8 || n - 8 < size {
        return Err(AccountError::InvalidAccountData);
    }
    if *slice_index_get(data, 0) != H::discriminator() {
        return Err(AccountError::InvalidAccountData);
    }
    let header_bytes = slice_subrange(data, 8, 8 + size);
    let remainder = slice_subrange(data, 8 + size, n);
    Ok((H::read(header_bytes), remainder))
}

/// Overwrites the header region of a header-plus-remainder buffer with
/// the encoding of `h`, leaving the tag, the reserved bytes and the
/// remainder unchanged.
///
/// Succeeds exactly when the buffer already has the shape of a header
/// record of type `H`; on failure the buffer is unchanged.
pub fn try_write_header<H: Record>(data: &mut Vec<u8>, h: &H) -> (r: Result<
    (),
    AccountError,
>)
    ensures
        r is Ok <==> header_shape_ok::<H>(old(data)@),
        r is Ok ==> final(data)@ =~= old(data)@.take(8) + h.to_bytes() + old(
            data,
        )@.skip(8 + H::byte_len_spec() as int),
        r is Err ==> final(data)@ == old(data)@,
        r is Err ==> r->Err_0 == AccountError::InvalidAccountData,
{
    let n = data.len();
    let size = H::byte_len();
    if n < 8 || n - 8 < size {
        return Err(AccountError::InvalidAccountData);
    }
    if *slice_index_get(data.as_slice(), 0) != H::discriminator() {
        return Err(AccountError::InvalidAccountData);
    }
    let body = h.emit();
    proof {
        h.lemma_to_bytes_len();
    }
    crate::bytes::write_bytes_at(data, 8, body.as_slice());
    proof {
        assert(final(data)@.take(8) =~= old(data)@.take(8));
    }
    Ok(())
}

/// The byte length of one trailing array segment: element count times
/// element stride.
pub open spec fn seg_len(seg: (usize, usize)) -> int {
    seg.0 * seg.1
}

/// The total byte length declared by a list of segments.
pub open spec fn segs_total(segs: Seq<(usize, usize)>) -> int
    decreases segs.len(),
{
    if segs.len() == 0 {
        0
    } else {
        seg_len(segs[0]) + segs_total(segs.skip(1))
    }
}

/// The byte offset at which segment `i` starts inside the remainder.
pub open spec fn seg_offset(segs: Seq<(usize, usize)>, i: int) -> int {
    segs_total(segs.take(i))
}

/// Every segment total is nonnegative.
pub proof fn lemma_segs_total_nonneg(segs: Seq<(usize, usize)>)
    ensures
        segs_total(segs) >= 0,
    decreases segs.len(),
{
    if segs.len() > 0 {
        lemma_segs_total_nonneg(segs.skip(1));
    }
}

/// Extending a prefix by one segment adds that segment's length.
pub proof fn lemma_segs_total_take_succ(segs: Seq<(usize, usize)>, i: int)
    requires
        0 <= i < segs.len(),
    ensures
        segs_total(segs.take(i + 1)) == segs_total(segs.take(i)) + seg_len(segs[i]),
    decreases i,
{
    if i == 0 {
        assert(segs.take(1) =~= seq![segs[0]]);
        assert(segs.take(1).skip(1) =~= Seq::<(usize, usize)>::empty());
        assert(segs.take(0) =~= Seq::<(usize, usize)>::empty());
    } else {
        let t1 = segs.take(i + 1);
        let t0 = segs.take(i);
        assert(t1.skip(1) =~= segs.skip(1).take(i));
        assert(t0.skip(1) =~= segs.skip(1).take(i - 1));
        lemma_segs_total_take_succ(segs.skip(1), i - 1);
        assert(segs.skip(1)[i - 1] == segs[i]);
    }
}

/// The declared total splits at any index into the prefix total and the
/// suffix total.
pub proof fn lemma_segs_total_split(segs: Seq<(usize, usize)>, i: int)
    requires
        0 <= i <= segs.len(),
    ensures
        segs_total(segs) == segs_total(segs.take(i)) + segs_total(segs.skip(i)),
    decreases i,
{
    if i == 0 {
        assert(segs.take(0) =~= Seq::<(usize, usize)>::empty());
        assert(segs.skip(0) =~= segs);
    } else {
        lemma_segs_total_split(segs, i - 1);
        lemma_segs_total_take_succ(segs, i - 1);
        let s = segs.skip(i - 1);
        assert(s.len() > 0);
        assert(s[0] == segs[i - 1]);
        assert(s.skip(1) =~= segs.skip(i));
    }
}

/// Later segments never start before an earlier one ends.
pub proof fn lemma_seg_offset_monotone(segs: Seq<(usize, usize)>, a: int, b: int)
    requires
        0 <= a <= b <= segs.len(),
    ensures
        seg_offset(segs, a) <= seg_offset(segs, b),
    decreases b - a,
{
    if a < b {
        lemma_segs_total_take_succ(segs, b - 1);
        assert(seg_len(segs[b - 1]) >= 0) by (nonlinear_arith);
        lemma_seg_offset_monotone(segs, a, b - 1);
    }
}

/// The byte ranges of two distinct segments are disjoint: one segment
/// ends no later than the next begins, so the mutable path hands out
/// non-overlapping ranges of the remainder.
pub proof fn lemma_segments_disjoint(segs: Seq<(usize, usize)>, i: int, j: int)
    requires
        0 <= i < j < segs.len(),
    ensures
        seg_offset(segs, i) + seg_len(segs[i]) <= seg_offset(segs, j),
{
    lemma_segs_total_take_succ(segs, i);
    lemma_seg_offset_monotone(segs, i + 1, j);
}

/// Slices a remainder into trailing arrays.
///
/// Each segment is an `(element count, element stride)` pair, and the
/// segments are laid out contiguously in the declared order. Succeeds
/// exactly when the remainder's length equals the declared total; a
/// shorter remainder fails rather than silently truncating, and a longer
/// one fails rather than leaving unclaimed bytes.
pub fn split_segments<'a>(remainder: &'a [u8], segs: &Vec<(usize, usize)>) -> (r: Result<
    Vec<&'a [u8]>,
    AccountError,
>)
    ensures
        r is Ok <==> segs_total(segs@) == remainder@.len(),
        r is Ok ==> r->Ok_0@.len() == segs@.len(),
        r is Ok ==> forall|i: int|
            0 <= i < segs@.len() ==> r->Ok_0@[i]@ =~= remainder@.subrange(
                seg_offset(segs@, i),
                seg_offset(segs@, i) + seg_len(segs@[i]),
            ),
        r is Err ==> r->Err_0 == AccountError::InvalidAccountData,
{
    let n = remainder.len();
    let mut out: Vec<&'a [u8]> = Vec::new();
    let mut offset: usize = 0;
    let mut i: usize = 0;
    while i < segs.len()
        invariant
            i <= segs@.len(),
            out@.len() == i,
            n == remainder@.len(),
            offset <= n,
            offset == seg_offset(segs@, i as int),
            forall|j: int|
                0 <= j < i ==> out@[j]@ =~= remainder@.subrange(
                    seg_offset(segs@, j),
                    seg_offset(segs@, j) + seg_len(segs@[j]),
                ),
        decreases segs@.len() - i,
    {
        let (count, stride) = segs[i];
        let seg_bytes = match count.checked_mul(stride) {
            Some(l) => l,
            None => {
                proof {
                    lemma_segs_total_split(segs@, i as int);
                    lemma_segs_total_split(segs@.skip(i as int), 1);
                    assert(segs@.skip(i as int).take(1) =~= seq![segs@[i as int]]);
                    assert(segs@.skip(i as int).take(1).skip(1) =~= Seq::<
                        (usize, usize),
                    >::empty());
                    assert(segs@.skip(i as int).take(1)[0] == segs@[i as int]);
                    lemma_segs_total_nonneg(segs@.skip(i as int).skip(1));
                    assert(segs_total(segs@) > usize::MAX);
                }
                return Err(AccountError::InvalidAccountData);
            },
        };
        if seg_bytes > n - offset {
            proof {
                lemma_segs_total_split(segs@, i as int);
                lemma_segs_total_split(segs@.skip(i as int), 1);
                assert(segs@.skip(i as int).take(1) =~= seq![segs@[i as int]]);
                assert(segs@.skip(i as int).take(1).skip(1) =~= Seq::<
                    (usize, usize),
                >::empty());
                assert(segs@.skip(i as int).take(1)[0] == segs@[i as int]);
                lemma_segs_total_nonneg(segs@.skip(i as int).skip(1));
                assert(segs_total(segs@) > remainder@.len());
            }
            return Err(AccountError::InvalidAccountData);
        }
        out.push(slice_subrange(remainder, offset, offset + seg_bytes));
        proof {
            lemma_segs_total_take_succ(segs@, i as int);
        }
        offset = offset + seg_bytes;
        i = i + 1;
    }
    if offset != n {
        proof {
            assert(segs@.take(i as int) =~= segs@);
        }
        return Err(AccountError::InvalidAccountData);
    }
    proof {
        assert(segs@.take(i as int) =~= segs@);
    }
    Ok(out)
}

/// Decodes a byte slice as a packed array of little-endian `u32` values.
///
/// Succeeds exactly when the length is a multiple of four.
pub fn decode_u32_slice(b: &[u8]) -> (r: Result<Vec<u32>, AccountError>)
    ensures
        r is Ok <==> b@.len() % 4 == 0,
        r is Ok ==> r->Ok_0@.len() == b@.len() / 4,
        r is Ok ==> forall|i: int|
            0 <= i < b@.len() / 4 ==> r->Ok_0@[i] as nat == le_value_of(
                b@.subrange(4 * i, 4 * i + 4),
            ),
        r is Err ==> r->Err_0 == AccountError::InvalidAccountData,
{
    let n = b.len();
    if n % 4 != 0 {
        return Err(AccountError::InvalidAccountData);
    }
    let count = n / 4;
    let mut out: Vec<u32> = Vec::new();
    let mut i: usize = 0;
    while i < count
        invariant
            i <= count,
            count == b@.len() / 4,
            n == b@.len(),
            n % 4 == 0,
            out@.len() == i,
            forall|j: int|
                0 <= j < i ==> out@[j] as nat == le_value_of(b@.subrange(4 * j, 4 * j + 4)),
        decreases count - i,
    {
        let word = slice_subrange(b, 4 * i, 4 * i + 4);
        let v = crate::bytes::le_decode(word);
        proof {
            crate::bytes::lemma_le_value_of_bound(word@);
            assert(pow256(4nat) == 0x1_0000_0000) by {
                reveal_with_fuel(pow256, 5);
            }
        }
        out.push(v as u32);
        i = i + 1;
    }
    Ok(out)
}

} // verus!
