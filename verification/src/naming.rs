//! Project-name case conversions.
//!
//! A project name may arrive with hyphens, underscores or whitespace
//! between its words. These helpers render it in camel case (for
//! instruction names), type case (for type names), and lib case (for
//! crate names). Word bodies are lowercased with the full Unicode
//! mapping; the capital that starts each later camel-case word uses the
//! ASCII mapping, and lib case is ASCII throughout.

use vstd::prelude::*;

verus! {

use vstd::string::StrSliceExecFns;

/// Unicode whitespace, as used to separate words: the characters with
/// the White_Space property.
pub open spec fn is_space(c: char) -> bool {
    ||| c as u32 == 0x20
    ||| (0x09 <= c as u32 && c as u32 <= 0x0D)
    ||| c as u32 == 0x85
    ||| c as u32 == 0xA0
    ||| c as u32 == 0x1680
    ||| (0x2000 <= c as u32 && c as u32 <= 0x200A)
    ||| c as u32 == 0x2028
    ||| c as u32 == 0x2029
    ||| c as u32 == 0x202F
    ||| c as u32 == 0x205F
    ||| c as u32 == 0x3000
}

/// Whether a character separates words: a word separator (`-` or `_`)
/// or whitespace.
pub open spec fn is_separator(c: char) -> bool {
    c == '-' || c == '_' || is_space(c)
}

/// Decides [`is_separator`].
pub fn separator_char(c: char) -> (r: bool)
    ensures
        r == is_separator(c),
{
    if c == '-' || c == '_' {
        return true;
    }
    let u = c as u32;
    u == 0x20 || (0x09 <= u && u <= 0x0D) || u == 0x85 || u == 0xA0 || u == 0x1680 || (0x2000
        <= u && u <= 0x200A) || u == 0x2028 || u == 0x2029 || u == 0x202F || u == 0x205F || u
        == 0x3000
}

/// The ASCII lowercase mapping of one character.
pub open spec fn spec_lower(c: char) -> char {
    match c {
        'A' => 'a',
        'B' => 'b',
        'C' => 'c',
        'D' => 'd',
        'E' => 'e',
        'F' => 'f',
        'G' => 'g',
        'H' => 'h',
        'I' => 'i',
        'J' => 'j',
        'K' => 'k',
        'L' => 'l',
        'M' => 'm',
        'N' => 'n',
        'O' => 'o',
        'P' => 'p',
        'Q' => 'q',
        'R' => 'r',
        'S' => 's',
        'T' => 't',
        'U' => 'u',
        'V' => 'v',
        'W' => 'w',
        'X' => 'x',
        'Y' => 'y',
        'Z' => 'z',
        _ => c,
    }
}

/// The ASCII uppercase mapping of one character.
pub open spec fn spec_upper(c: char) -> char {
    match c {
        'a' => 'A',
        'b' => 'B',
        'c' => 'C',
        'd' => 'D',
        'e' => 'E',
        'f' => 'F',
        'g' => 'G',
        'h' => 'H',
        'i' => 'I',
        'j' => 'J',
        'k' => 'K',
        'l' => 'L',
        'm' => 'M',
        'n' => 'N',
        'o' => 'O',
        'p' => 'P',
        'q' => 'Q',
        'r' => 'R',
        's' => 'S',
        't' => 'T',
        'u' => 'U',
        'v' => 'V',
        'w' => 'W',
        'x' => 'X',
        'y' => 'Y',
        'z' => 'Z',
        _ => c,
    }
}

/// ASCII-lowercases one character.
pub fn ascii_lower(c: char) -> (r: char)
    ensures
        r == spec_lower(c),
{
    match c {
        'A' => 'a',
        'B' => 'b',
        'C' => 'c',
        'D' => 'd',
        'E' => 'e',
        'F' => 'f',
        'G' => 'g',
        'H' => 'h',
        'I' => 'i',
        'J' => 'j',
        'K' => 'k',
        'L' => 'l',
        'M' => 'm',
        'N' => 'n',
        'O' => 'o',
        'P' => 'p',
        'Q' => 'q',
        'R' => 'r',
        'S' => 's',
        'T' => 't',
        'U' => 'u',
        'V' => 'v',
        'W' => 'w',
        'X' => 'x',
        'Y' => 'y',
        'Z' => 'z',
        _ => c,
    }
}

/// ASCII-uppercases one character.
pub fn ascii_upper(c: char) -> (r: char)
    ensures
        r == spec_upper(c),
{
    match c {
        'a' => 'A',
        'b' => 'B',
        'c' => 'C',
        'd' => 'D',
        'e' => 'E',
        'f' => 'F',
        'g' => 'G',
        'h' => 'H',
        'i' => 'I',
        'j' => 'J',
        'k' => 'K',
        'l' => 'L',
        'm' => 'M',
        'n' => 'N',
        'o' => 'O',
        'p' => 'P',
        'q' => 'Q',
        'r' => 'R',
        's' => 'S',
        't' => 'T',
        'u' => 'U',
        'v' => 'V',
        'w' => 'W',
        'x' => 'X',
        'y' => 'Y',
        'z' => 'Z',
        _ => c,
    }
}

/// What Unicode lowercasing yields for a character sequence; the
/// result depends on the characters alone (the mapping of a character
/// may depend on its neighbors, as for a final sigma).
pub uninterp spec fn lower_of(s: Seq<char>) -> Seq<char>;

/// What Unicode uppercasing yields for one character: one or more
/// characters, depending on the character alone.
pub uninterp spec fn upper_of(c: char) -> Seq<char>;

/// Relies on str::to_lowercase: the full Unicode lowercase mapping of
/// a character sequence, a function of the characters alone; the empty
/// sequence stays empty.
#[verifier::external_body]
fn chars_lower(v: &Vec<char>) -> (r: Vec<char>)
    ensures
        r@ == lower_of(v@),
        v@.len() == 0 ==> r@.len() == 0,
{
    let s: String = v.iter().collect();
    s.to_lowercase().chars().collect()
}

/// Relies on char::to_uppercase: the full Unicode uppercase mapping of
/// one character, a function of the character alone, yielding at least
/// one character.
#[verifier::external_body]
fn char_upper(c: char) -> (r: Vec<char>)
    ensures
        r@ == upper_of(c),
        r@.len() >= 1,
{
    c.to_uppercase().collect()
}

/// Relies on String::from_iter over `char`: collecting characters
/// yields the string of exactly those characters.
#[verifier::external_body]
fn chars_to_string(v: Vec<char>) -> (r: String)
    ensures
        r@ == v@,
{
    v.into_iter().collect()
}

/// The views of a list of words.
pub open spec fn word_views(ws: Seq<Vec<char>>) -> Seq<Seq<char>> {
    ws.map_values(|w: Vec<char>| w@)
}

/// The words of the characters from position `i` on, where `cur` holds
/// the word in progress and `acc` the words already complete: maximal
/// runs of non-separator characters, in order.
pub open spec fn words_rec(
    s: Seq<char>,
    i: int,
    cur: Seq<char>,
    acc: Seq<Seq<char>>,
) -> Seq<Seq<char>>
    decreases s.len() - i,
{
    if i < 0 || i >= s.len() {
        if cur.len() == 0 {
            acc
        } else {
            acc.push(cur)
        }
    } else if is_separator(s[i]) {
        if cur.len() == 0 {
            words_rec(s, i + 1, cur, acc)
        } else {
            words_rec(s, i + 1, Seq::empty(), acc.push(cur))
        }
    } else {
        words_rec(s, i + 1, cur.push(s[i]), acc)
    }
}

/// The words of a name: maximal runs of non-separator characters.
pub open spec fn split_words(s: Seq<char>) -> Seq<Seq<char>> {
    words_rec(s, 0, Seq::empty(), Seq::empty())
}

/// The camel-case rendering of one later word: its first character
/// ASCII-uppercased, the rest Unicode-lowercased as a unit.
pub open spec fn cap_word(w: Seq<char>) -> Seq<char> {
    if w.len() == 0 {
        Seq::empty()
    } else {
        seq![spec_upper(w[0])] + lower_of(w.skip(1))
    }
}

/// The camel-case rendering of the words from position `j` on; the
/// first word of the name is lowercased whole.
pub open spec fn render_from(ws: Seq<Seq<char>>, j: int, first: bool) -> Seq<char>
    decreases ws.len() - j,
{
    if j < 0 || j >= ws.len() {
        Seq::empty()
    } else if first {
        lower_of(ws[j]) + render_from(ws, j + 1, false)
    } else {
        cap_word(ws[j]) + render_from(ws, j + 1, false)
    }
}

/// The camel-case rendering of a name.
pub open spec fn camel_case(s: Seq<char>) -> Seq<char> {
    render_from(split_words(s), 0, true)
}

/// Renders a name in camel case: words may be separated by hyphens,
/// underscores or whitespace; the first word is lowercased whole, each
/// later word starts with its first character ASCII-uppercased and
/// continues with the rest of the word lowercased.
pub fn to_camel_case(input: &str) -> (r: String)
    ensures
        r@ == camel_case(input@),
{
    let n = input.unicode_len();
    let mut words: Vec<Vec<char>> = Vec::new();
    let mut cur: Vec<char> = Vec::new();
    let mut i: usize = 0;
    proof {
        assert(cur@ =~= Seq::<char>::empty());
        assert(word_views(words@) =~= Seq::<Seq<char>>::empty());
    }
    while i < n
        invariant
            i <= n,
            n == input@.len(),
            split_words(input@) =~= words_rec(
                input@,
                i as int,
                cur@,
                word_views(words@),
            ),
        decreases n - i,
    {
        let c = input.get_char(i);
        if separator_char(c) {
            if cur.len() > 0 {
                proof {
                    assert(word_views(words@).push(cur@) =~= word_views(
                        words@.push(cur),
                    ));
                }
                words.push(cur);
                cur = Vec::new();
            }
        } else {
            cur.push(c);
        }
        i = i + 1;
    }
    if cur.len() > 0 {
        proof {
            assert(word_views(words@).push(cur@) =~= word_views(words@.push(cur)));
        }
        words.push(cur);
    }
    proof {
        assert(split_words(input@) =~= word_views(words@));
    }
    let word_count = words.len();
    let mut out: Vec<char> = Vec::new();
    let mut j: usize = 0;
    while j < word_count
        invariant
            j <= word_count,
            word_count == words@.len(),
            split_words(input@) =~= word_views(words@),
            camel_case(input@) =~= out@ + render_from(
                word_views(words@),
                j as int,
                j == 0,
            ),
        decreases word_count - j,
    {
        proof {
            assert(word_views(words@)[j as int] == words@[j as int]@);
        }
        if j == 0 {
            let lowered = chars_lower(&words[0]);
            out.extend_from_slice(lowered.as_slice());
        } else {
            let word_len = words[j].len();
            if word_len > 0 {
                out.push(ascii_upper(*vstd::slice::slice_index_get(
                    words[j].as_slice(),
                    0,
                )));
                let rest = vstd::slice::slice_to_vec(vstd::slice::slice_subrange(
                    words[j].as_slice(),
                    1,
                    word_len,
                ));
                proof {
                    assert(rest@ =~= words@[j as int]@.skip(1));
                }
                let lowered = chars_lower(&rest);
                out.extend_from_slice(lowered.as_slice());
            }
        }
        j = j + 1;
    }
    chars_to_string(out)
}

/// The input with the Unicode uppercase mapping of its first character
/// (possibly several characters) in place of it.
pub open spec fn capitalized(s: Seq<char>) -> Seq<char> {
    if s.len() == 0 {
        Seq::empty()
    } else {
        upper_of(s[0]) + s.skip(1)
    }
}

/// Uppercases the first character of a string with the full Unicode
/// mapping (which may yield several characters), leaving the rest as
/// it is; the empty string stays empty.
pub fn capitalize_first(input: &str) -> (r: String)
    ensures
        r@ == capitalized(input@),
{
    let n = input.unicode_len();
    if n == 0 {
        return String::new();
    }
    let mut out: Vec<char> = char_upper(input.get_char(0));
    let head_len = out.len();
    let mut i: usize = 1;
    while i < n
        invariant
            1 <= i <= n,
            n == input@.len(),
            head_len == upper_of(input@[0]).len(),
            out@.len() == head_len + i - 1,
            out@.take(head_len as int) =~= upper_of(input@[0]),
            forall|j: int| 1 <= j < i ==> out@[head_len + j - 1] == input@[j],
        decreases n - i,
    {
        out.push(input.get_char(i));
        i = i + 1;
    }
    proof {
        assert(out@ =~= capitalized(input@));
    }
    chars_to_string(out)
}

/// Renders a name in type case: camel case with the first character
/// uppercased.
pub fn to_type_case(input: &str) -> (r: String)
    ensures
        r@ == capitalized(camel_case(input@)),
{
    let camel = to_camel_case(input);
    capitalize_first(camel.as_str())
}

/// The lib-case mapping of one character: hyphens become underscores,
/// ASCII letters are lowercased.
pub open spec fn lib_case(s: Seq<char>) -> Seq<char> {
    s.map_values(
        |c: char|
            if c == '-' {
                '_'
            } else {
                spec_lower(c)
            },
    )
}

/// Renders a name in lib case: ASCII-lowercased, with hyphens replaced
/// by underscores.
pub fn to_lib_case(input: &str) -> (r: String)
    ensures
        r@ == lib_case(input@),
{
    let n = input.unicode_len();
    let mut out: Vec<char> = Vec::new();
    let mut i: usize = 0;
    while i < n
        invariant
            i <= n,
            n == input@.len(),
            out@.len() == i,
            forall|j: int| 0 <= j < i ==> out@[j] == lib_case(input@)[j],
        decreases n - i,
    {
        let c = input.get_char(i);
        if c == '-' {
            out.push('_');
        } else {
            out.push(ascii_lower(c));
        }
        i = i + 1;
    }
    proof {
        assert(out@ =~= lib_case(input@));
    }
    chars_to_string(out)
}

} // verus!
