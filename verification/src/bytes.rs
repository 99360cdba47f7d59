//! Little-endian byte encoding of unsigned integers, and in-place byte
//! splicing on vectors.
//!
//! Every multi-byte field of a tagged record is stored in little-endian
//! order. The spec functions here give that encoding a mathematical
//! definition, and the executable functions are proved against it.

use vstd::prelude::*;

verus! {

/// `256^n`, the number of values an `n`-byte field can hold.
pub open spec fn pow256(n: nat) -> nat
    decreases n,
{
    if n == 0 {
        1
    } else {
        256 * pow256((n - 1) as nat)
    }
}

/// The little-endian encoding of `v` into exactly `n` bytes
/// (high bits beyond `n` bytes are discarded).
pub open spec fn le_bytes_of(v: nat, n: nat) -> Seq<u8>
    decreases n,
{
    if n == 0 {
        Seq::empty()
    } else {
        seq![(v % 256) as u8] + le_bytes_of(v / 256, (n - 1) as nat)
    }
}

/// The value encoded by a little-endian byte sequence.
pub open spec fn le_value_of(s: Seq<u8>) -> nat
    decreases s.len(),
{
    if s.len() == 0 {
        0
    } else {
        (s[0] + 256 * le_value_of(s.skip(1))) as nat
    }
}

/// The encoding has exactly the requested length.
pub proof fn lemma_le_bytes_of_len(v: nat, n: nat)
    ensures
        le_bytes_of(v, n).len() == n,
    decreases n,
{
    if n > 0 {
        lemma_le_bytes_of_len(v / 256, (n - 1) as nat);
    }
}

/// A decoded value is bounded by the width of its encoding.
pub proof fn lemma_le_value_of_bound(s: Seq<u8>)
    ensures
        le_value_of(s) < pow256(s.len()),
    decreases s.len(),
{
    if s.len() > 0 {
        lemma_le_value_of_bound(s.skip(1));
    }
}

/// Decoding inverts encoding, for values that fit in `n` bytes.
pub proof fn lemma_le_roundtrip(v: nat, n: nat)
    requires
        v < pow256(n),
    ensures
        le_value_of(le_bytes_of(v, n)) == v,
    decreases n,
{
    if n > 0 {
        lemma_le_bytes_of_len(v / 256, (n - 1) as nat);
        assert(le_bytes_of(v, n).skip(1) =~= le_bytes_of(v / 256, (n - 1) as nat));
        lemma_le_roundtrip(v / 256, (n - 1) as nat);
    }
}

/// Encoding inverts decoding: a byte sequence is the encoding of its value.
pub proof fn lemma_le_bytes_of_value(s: Seq<u8>)
    ensures
        le_bytes_of(le_value_of(s), s.len()) =~= s,
    decreases s.len(),
{
    if s.len() > 0 {
        let v = le_value_of(s);
        assert(v == s[0] + 256 * le_value_of(s.skip(1)));
        assert(v % 256 == s[0] && v / 256 == le_value_of(s.skip(1))) by {
            vstd::arithmetic::div_mod::lemma_fundamental_div_mod_converse(
                v as int,
                256,
                le_value_of(s.skip(1)) as int,
                s[0] as int,
            );
        }
        lemma_le_bytes_of_value(s.skip(1));
        lemma_le_bytes_of_len(le_value_of(s.skip(1)), (s.len() - 1) as nat);
    }
}

/// Encodes the low `n` bytes of `v` in little-endian order.
pub fn le_encode(v: u64, n: usize) -> (r: Vec<u8>)
    ensures
        r@ =~= le_bytes_of(v as nat, n as nat),
        r@.len() == n,
{
    let mut out: Vec<u8> = Vec::new();
    let mut cur: u64 = v;
    let mut i: usize = 0;
    proof {
        lemma_le_bytes_of_len(v as nat, n as nat);
    }
    while i < n
        invariant
            i <= n,
            out@.len() == i,
            le_bytes_of(v as nat, n as nat) =~= out@ + le_bytes_of(
                cur as nat,
                (n - i) as nat,
            ),
        decreases n - i,
    {
        proof {
            lemma_le_bytes_of_len(cur as nat, (n - i) as nat);
            lemma_le_bytes_of_len((cur / 256) as nat, (n - i - 1) as nat);
            assert(le_bytes_of(cur as nat, (n - i) as nat) =~= seq![(cur % 256) as u8]
                + le_bytes_of((cur / 256) as nat, (n - i - 1) as nat));
        }
        out.push((cur % 256) as u8);
        cur = cur / 256;
        i = i + 1;
    }
    out
}

/// Decodes a little-endian byte slice of at most eight bytes.
pub fn le_decode(b: &[u8]) -> (r: u64)
    requires
        b@.len() <= 8,
    ensures
        r as nat == le_value_of(b@),
{
    let n = b.len();
    let mut acc: u64 = 0;
    let mut i: usize = n;
    proof {
        assert(b@.skip(n as int) =~= Seq::<u8>::empty());
    }
    while i > 0
        invariant
            i <= n,
            n == b@.len() <= 8,
            acc as nat == le_value_of(b@.skip(i as int)),
            acc < pow256((n - i) as nat),
        decreases i,
    {
        i = i - 1;
        proof {
            assert(b@.skip(i as int)[0] == b@[i as int]);
            assert(b@.skip(i as int).skip(1) =~= b@.skip(i as int + 1));
            assert(pow256((n - i) as nat) == 256 * pow256((n - i - 1) as nat));
            assert(pow256(8nat) == 0x1_0000_0000_0000_0000) by {
                reveal_with_fuel(pow256, 9);
            }
            lemma_pow256_increases((n - i) as nat, 8nat);
        }
        acc = b[i] as u64 + 256 * acc;
    }
    proof {
        assert(b@.skip(0) =~= b@);
    }
    acc
}

/// `pow256` is monotone in its exponent.
pub proof fn lemma_pow256_increases(m: nat, n: nat)
    requires
        m <= n,
    ensures
        pow256(m) <= pow256(n),
    decreases n,
{
    if m < n {
        lemma_pow256_increases(m, (n - 1) as nat);
        assert(pow256((n - 1) as nat) >= 1) by {
            lemma_pow256_pos((n - 1) as nat);
        }
    }
}

/// `pow256` is positive.
pub proof fn lemma_pow256_pos(n: nat)
    ensures
        pow256(n) >= 1,
    decreases n,
{
    if n > 0 {
        lemma_pow256_pos((n - 1) as nat);
    }
}

/// Overwrites `buf[at .. at + src.len()]` with `src`, leaving the rest
/// of `buf` unchanged.
pub fn write_bytes_at(buf: &mut Vec<u8>, at: usize, src: &[u8])
    requires
        at + src@.len() <= old(buf)@.len(),
    ensures
        final(buf)@.len() == old(buf)@.len(),
        final(buf)@ =~= old(buf)@.take(at as int) + src@ + old(buf)@.skip(
            at + src@.len(),
        ),
{
    let buf_len: usize = buf.len();
    let mut i: usize = 0;
    while i < src.len()
        invariant
            i <= src@.len(),
            at + src@.len() <= buf_len,
            buf_len == buf@.len(),
            buf@.len() == old(buf)@.len(),
            forall|j: int| 0 <= j < at ==> buf@[j] == old(buf)@[j],
            forall|j: int| 0 <= j < i ==> buf@[at + j] == src@[j],
            forall|j: int|
                at + src@.len() <= j < buf@.len() ==> buf@[j] == old(buf)@[j],
            forall|j: int| at + i <= j < buf@.len() ==> buf@[j] == old(buf)@[j],
        decreases src@.len() - i,
    {
        buf.set(at + i, src[i]);
        i = i + 1;
    }
}

} // verus!
