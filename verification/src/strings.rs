//! Fixed-size byte-array string storage, and byte-slice chunking.
//!
//! Record fields that hold text store it as a fixed-size, zero-padded
//! byte array. These helpers convert between such arrays and strings.

use vstd::prelude::*;

use crate::error::AccountError;

verus! {

use vstd::slice::{slice_index_get, slice_subrange, slice_to_vec};
use vstd::string::StringSliceAdditionalSpecFns;

/// The custom error code reported when a string does not fit its field.
pub const ERROR_STRING_TOO_LONG: u32 = 1;

/// The custom error code reserved for text that is not valid UTF-8.
pub const ERROR_INVALID_UTF8: u32 = 2;

/// Converts a string into a fixed-size byte vector of length `n`,
/// zero-padded on the right.
///
/// Succeeds exactly when the string's UTF-8 encoding holds at most `n`
/// bytes; otherwise reports the string-too-long error code.
pub fn string_to_bytes(s: &str, n: usize) -> (r: Result<Vec<u8>, AccountError>)
    ensures
        r is Ok <==> s.spec_bytes().len() <= n,
        r matches Ok(v) ==> v@.len() == n,
        r matches Ok(v) ==> v@.take(s.spec_bytes().len() as int) =~= s.spec_bytes(),
        r matches Ok(v) ==> forall|i: int|
            s.spec_bytes().len() <= i < n ==> v@[i] == 0u8,
        r is Err ==> r->Err_0 == AccountError::Custom(ERROR_STRING_TOO_LONG),
{
    let s_bytes: &[u8] = s.as_bytes();
    if s_bytes.len() > n {
        return Err(AccountError::Custom(ERROR_STRING_TOO_LONG));
    }
    let mut out = slice_to_vec(s_bytes);
    while out.len() < n
        invariant
            s.spec_bytes().len() <= out@.len() <= n,
            out@.take(s.spec_bytes().len() as int) =~= s.spec_bytes(),
            forall|i: int| s.spec_bytes().len() <= i < out@.len() ==> out@[i] == 0u8,
        decreases n - out@.len(),
    {
        out.push(0u8);
    }
    Ok(out)
}

/// The index of the first zero byte, or the length if there is none.
pub open spec fn first_zero(s: Seq<u8>) -> int
    decreases s.len(),
{
    if s.len() == 0 {
        0
    } else if s[0] == 0 {
        0
    } else {
        1 + first_zero(s.skip(1))
    }
}

/// `first_zero` is a valid index bound, and everything before it is
/// nonzero.
pub proof fn lemma_first_zero(s: Seq<u8>)
    ensures
        0 <= first_zero(s) <= s.len(),
        forall|i: int| 0 <= i < first_zero(s) ==> s[i] != 0u8,
        first_zero(s) < s.len() ==> s[first_zero(s)] == 0u8,
    decreases s.len(),
{
    if s.len() > 0 && s[0] != 0 {
        lemma_first_zero(s.skip(1));
        assert forall|i: int| 0 <= i < first_zero(s) implies s[i] != 0u8 by {
            if i > 0 {
                assert(s.skip(1)[i - 1] == s[i]);
            }
        }
        if first_zero(s) < s.len() {
            assert(s.skip(1)[first_zero(s) - 1] == s[first_zero(s)]);
        }
    }
}

/// What lossy UTF-8 decoding yields for a byte sequence; the result is
/// a function of the bytes alone.
pub uninterp spec fn utf8_lossy_of(bytes: Seq<u8>) -> Seq<char>;

/// Relies on String::from_utf8_lossy: the result depends on the bytes
/// alone; a buffer that is the UTF-8 encoding of a character sequence
/// decodes to exactly that sequence (UTF-8 encoding is injective), and
/// ASCII bytes decode one-for-one to the characters with the same
/// codes.
#[verifier::external_body]
fn utf8_lossy(bytes: &[u8]) -> (r: String)
    ensures
        r@ == utf8_lossy_of(bytes@),
        forall|cs: Seq<char>| bytes@ == #[trigger] vstd::utf8::encode_utf8(cs) ==> r@ == cs,
        (forall|i: int| 0 <= i < bytes@.len() ==> bytes@[i] < 128) ==> r@.len()
            == bytes@.len() && (forall|i: int|
            0 <= i < bytes@.len() ==> r@[i] as u32 == bytes@[i] as u32),
{
    String::from_utf8_lossy(bytes).into_owned()
}

/// Converts a zero-padded byte array into a string: the bytes before
/// the first zero byte (all of them, if none is zero) are decoded as
/// UTF-8, with invalid sequences replaced rather than rejected, so the
/// conversion always succeeds. A prefix that encodes a character
/// sequence in UTF-8 decodes to exactly that sequence; in particular
/// ASCII content decodes to its own characters.
pub fn bytes_to_string(bytes: &[u8]) -> (r: Result<String, AccountError>)
    ensures
        r is Ok,
        r matches Ok(s) ==> s@ == utf8_lossy_of(bytes@.take(first_zero(bytes@))),
        r matches Ok(s) ==> forall|cs: Seq<char>|
            bytes@.take(first_zero(bytes@)) == #[trigger] vstd::utf8::encode_utf8(cs)
                ==> s@ == cs,
        r matches Ok(s) ==> (forall|i: int|
            0 <= i < first_zero(bytes@) ==> bytes@[i] < 128) ==> s@.len() == first_zero(
            bytes@,
        ) && (forall|i: int|
            0 <= i < first_zero(bytes@) ==> s@[i] as u32 == bytes@[i] as u32),
{
    let n = bytes.len();
    let mut p: usize = n;
    let mut q: usize = n;
    proof {
        assert(bytes@.skip(n as int) =~= Seq::<u8>::empty());
    }
    while q > 0
        invariant
            q <= n,
            p <= n,
            n == bytes@.len(),
            p as int == q + first_zero(bytes@.skip(q as int)),
        decreases q,
    {
        q = q - 1;
        proof {
            assert(bytes@.skip(q as int)[0] == bytes@[q as int]);
            assert(bytes@.skip(q as int).skip(1) =~= bytes@.skip(q as int + 1));
            lemma_first_zero(bytes@.skip(q as int));
        }
        if *vstd::slice::slice_index_get(bytes, q) == 0 {
            p = q;
        }
    }
    proof {
        assert(bytes@.skip(0) =~= bytes@);
    }
    let prefix = slice_subrange(bytes, 0, p);
    proof {
        assert(prefix@ =~= bytes@.take(first_zero(bytes@)));
    }
    Ok(utf8_lossy(prefix))
}

/// Whether `needle` occurs as a contiguous run inside `haystack`.
pub open spec fn contains_seq(haystack: Seq<u8>, needle: Seq<u8>) -> bool {
    exists|i: int|
        0 <= i && i + needle.len() <= haystack.len() && #[trigger] haystack.subrange(
            i,
            i + needle.len(),
        ) == needle
}

/// Decides whether `needle` occurs as a contiguous run inside
/// `haystack`; the empty needle occurs in every haystack.
pub fn contains_bytes(haystack: &[u8], needle: &[u8]) -> (r: bool)
    ensures
        r == contains_seq(haystack@, needle@),
{
    let n = haystack.len();
    let m = needle.len();
    if m > n {
        proof {
            assert(!contains_seq(haystack@, needle@));
        }
        return false;
    }
    let mut i: usize = 0;
    while i <= n - m
        invariant
            m <= n,
            n == haystack@.len(),
            m == needle@.len(),
            i <= n - m + 1,
            forall|k: int|
                0 <= k < i ==> #[trigger] haystack@.subrange(k, k + needle@.len())
                    != needle@,
        decreases n - m + 1 - i,
    {
        let mut j: usize = 0;
        let mut matched = true;
        while j < m
            invariant
                j <= m,
                m <= n,
                i + m <= n,
                n == haystack@.len(),
                m == needle@.len(),
                matched <==> (forall|l: int|
                    0 <= l < j ==> haystack@[i + l] == needle@[l]),
            decreases m - j,
        {
            if *slice_index_get(haystack, i + j) != *slice_index_get(needle, j) {
                matched = false;
            }
            j = j + 1;
        }
        if matched {
            proof {
                assert(haystack@.subrange(i as int, i + needle@.len()) =~= needle@);
            }
            return true;
        }
        proof {
            let w = choose|l: int| 0 <= l < m && haystack@[i + l] != needle@[l];
            assert(haystack@.subrange(i as int, i + needle@.len()) != needle@) by {
                if haystack@.subrange(i as int, i + needle@.len()) == needle@ {
                    assert(haystack@.subrange(i as int, i + needle@.len())[w]
                        == needle@[w]);
                }
            }
        }
        i = i + 1;
    }
    proof {
        assert forall|k: int|
            0 <= k && k + needle@.len() <= haystack@.len() implies #[trigger] haystack@.subrange(
            k,
            k + needle@.len(),
        ) != needle@ by {
            assert(k < i);
        }
    }
    false
}

/// How many entries of a list of findings are set.
pub open spec fn count_true(flags: Seq<bool>) -> int
    decreases flags.len(),
{
    if flags.len() == 0 {
        0
    } else {
        (if flags[0] {
            1int
        } else {
            0int
        }) + count_true(flags.skip(1))
    }
}

/// Counts the set entries of a list of findings.
pub fn count_matches(flags: &Vec<bool>) -> (r: usize)
    ensures
        r == count_true(flags@),
{
    let n = flags.len();
    let mut count: usize = 0;
    let mut i: usize = n;
    proof {
        assert(flags@.skip(n as int) =~= Seq::<bool>::empty());
    }
    while i > 0
        invariant
            i <= n,
            n == flags@.len(),
            count == count_true(flags@.skip(i as int)),
            count <= n - i,
        decreases i,
    {
        i = i - 1;
        proof {
            assert(flags@.skip(i as int)[0] == flags@[i as int]);
            assert(flags@.skip(i as int).skip(1) =~= flags@.skip(i as int + 1));
        }
        if flags[i] {
            count = count + 1;
        }
    }
    proof {
        assert(flags@.skip(0) =~= flags@);
    }
    count
}

/// Splits a byte slice into consecutive chunks of `chunk_size` bytes;
/// the last chunk holds whatever remains and may be shorter.
pub fn split_bytes<'a>(data: &'a [u8], chunk_size: usize) -> (r: Vec<&'a [u8]>)
    requires
        chunk_size > 0,
    ensures
        forall|i: int|
            0 <= i < r@.len() ==> r@[i]@ =~= data@.subrange(
                i * chunk_size,
                if (i + 1) * chunk_size <= data@.len() {
                    (i + 1) * chunk_size
                } else {
                    data@.len() as int
                },
            ),
        data@.len() == 0 ==> r@.len() == 0,
        data@.len() > 0 ==> (r@.len() - 1) * chunk_size < data@.len() <= r@.len()
            * chunk_size,
{
    let n = data.len();
    let mut out: Vec<&'a [u8]> = Vec::new();
    let mut offset: usize = 0;
    proof {
        assert(out@.len() * chunk_size == 0) by (nonlinear_arith)
            requires
                out@.len() == 0,
        ;
    }
    while offset < n
        invariant
            offset <= n,
            n == data@.len(),
            chunk_size > 0,
            offset == n || offset == out@.len() * chunk_size,
            offset == n ==> n <= out@.len() * chunk_size,
            out@.len() == 0 ==> offset == 0,
            out@.len() > 0 ==> (out@.len() - 1) * chunk_size < n,
            forall|i: int|
                0 <= i < out@.len() ==> out@[i]@ =~= data@.subrange(
                    i * chunk_size,
                    if (i + 1) * chunk_size <= data@.len() {
                        (i + 1) * chunk_size
                    } else {
                        data@.len() as int
                    },
                ),
        decreases n - offset,
    {
        let ghost k = out@.len() as int;
        proof {
            assert(offset == k * chunk_size);
            assert((k + 1) * chunk_size == k * chunk_size + chunk_size)
                by (nonlinear_arith);
        }
        let end = if n - offset < chunk_size {
            n
        } else {
            offset + chunk_size
        };
        out.push(slice_subrange(data, offset, end));
        offset = end;
    }
    proof {
        if out@.len() > 0 && offset == out@.len() * chunk_size {
            assert(n <= out@.len() * chunk_size);
        }
    }
    out
}

} // verus!
