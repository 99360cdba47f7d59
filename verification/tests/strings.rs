use steel::{
    bytes_to_string, capitalize_first, split_bytes, string_to_bytes, to_camel_case,
    to_lib_case, to_type_case, AccountError, ERROR_STRING_TOO_LONG,
};

#[test]
fn test_string_to_bytes() {
    // Test successful conversion
    let result = string_to_bytes("hello", 5);
    assert!(result.is_ok());
    assert_eq!(result.unwrap(), b"hello".to_vec());

    // Test string shorter than buffer
    let result = string_to_bytes("hi", 5);
    assert!(result.is_ok());
    assert_eq!(&result.unwrap()[..2], b"hi");

    // Test string too long
    let result = string_to_bytes("hello", 3);
    assert!(result.is_err());
    assert_eq!(
        result.unwrap_err(),
        AccountError::Custom(ERROR_STRING_TOO_LONG)
    );
}

#[test]
fn test_bytes_to_string() {
    // Test successful conversion
    let bytes = *b"hello";
    let result = bytes_to_string(&bytes);
    assert!(result.is_ok());
    assert_eq!(result.unwrap(), "hello");

    // Test with null termination
    let mut bytes = [0u8; 5];
    bytes[..3].copy_from_slice(b"hi\0");
    let result = bytes_to_string(&bytes);
    assert!(result.is_ok());
    assert_eq!(result.unwrap(), "hi");
}

#[test]
fn string_to_bytes_pads_with_zeros() {
    let v = string_to_bytes("hi", 5).unwrap();
    assert_eq!(v, vec![b'h', b'i', 0, 0, 0]);
}

#[test]
fn bytes_to_string_replaces_invalid_sequences() {
    // 0xFF is never valid UTF-8: the conversion substitutes rather
    // than failing.
    let bytes = [0xFFu8, 0u8];
    let s = bytes_to_string(&bytes).unwrap();
    assert_eq!(s, "\u{FFFD}");
}

#[test]
fn split_bytes_chunks() {
    let data = [1u8, 2, 3, 4, 5, 6, 7];
    let chunks = split_bytes(&data, 3);
    assert_eq!(chunks.len(), 3);
    assert_eq!(chunks[0], &[1, 2, 3]);
    assert_eq!(chunks[1], &[4, 5, 6]);
    assert_eq!(chunks[2], &[7]);

    let exact = [1u8, 2, 3, 4];
    let chunks = split_bytes(&exact, 2);
    assert_eq!(chunks.len(), 2);
    assert_eq!(chunks[1], &[3, 4]);

    let empty: [u8; 0] = [];
    assert_eq!(split_bytes(&empty, 4).len(), 0);
}

#[test]
fn camel_case_conversions() {
    assert_eq!(to_camel_case("hello-world"), "helloWorld");
    assert_eq!(to_camel_case("hello_world"), "helloWorld");
    assert_eq!(to_camel_case("Hello world"), "helloWorld");
    assert_eq!(to_camel_case("one-two_three four"), "oneTwoThreeFour");
    assert_eq!(to_camel_case(""), "");
    assert_eq!(to_camel_case("--__  "), "");
}

#[test]
fn type_case_conversions() {
    assert_eq!(to_type_case("hello-world"), "HelloWorld");
    assert_eq!(to_type_case("my counter"), "MyCounter");
    assert_eq!(to_type_case(""), "");
}

#[test]
fn lib_case_conversions() {
    assert_eq!(to_lib_case("Hello-World"), "hello_world");
    assert_eq!(to_lib_case("my-program"), "my_program");
    assert_eq!(to_lib_case("UPPER"), "upper");
}

#[test]
fn capitalize_first_conversions() {
    assert_eq!(capitalize_first("hello"), "Hello");
    assert_eq!(capitalize_first(""), "");
    assert_eq!(capitalize_first("a"), "A");
    assert_eq!(capitalize_first("9lives"), "9lives");
}

#[test]
fn unicode_case_conversions() {
    // The first character takes the full Unicode uppercase mapping,
    // which may yield more than one character.
    assert_eq!(capitalize_first("\u{e9}tude"), "\u{c9}tude");
    assert_eq!(capitalize_first("\u{df}eta"), "SSeta");

    // Word bodies take the full Unicode lowercase mapping, including
    // the word-final sigma.
    assert_eq!(
        to_camel_case("\u{1f48}\u{394}\u{3a5}\u{3a3}\u{3a3}\u{395}\u{38e}\u{3a3}"),
        "\u{1f40}\u{3b4}\u{3c5}\u{3c3}\u{3c3}\u{3b5}\u{3cd}\u{3c2}"
    );
    assert_eq!(to_camel_case("h\u{e9}llo-w\u{f6}rld"), "h\u{e9}lloW\u{f6}rld");

    // Non-ASCII whitespace separates words too.
    assert_eq!(to_camel_case("hello\u{a0}world"), "helloWorld");
}

#[test]
fn bytes_to_string_decodes_utf8_content() {
    // A two-byte UTF-8 sequence before the zero padding decodes to its
    // character.
    let bytes = [0xC3u8, 0xA9, 0, 0];
    assert_eq!(bytes_to_string(&bytes).unwrap(), "\u{e9}");
}

#[test]
fn contains_bytes_finds_runs() {
    assert!(steel::contains_bytes(b"target/deploy", b"deploy"));
    assert!(steel::contains_bytes(b"deploy", b"deploy"));
    assert!(steel::contains_bytes(b"xdeployx", b"deploy"));
    assert!(!steel::contains_bytes(b"depxloy", b"deploy"));
    assert!(!steel::contains_bytes(b"deplo", b"deploy"));
    assert!(steel::contains_bytes(b"anything", b""));
    assert!(!steel::contains_bytes(b"", b"x"));
}

#[test]
fn count_matches_counts_set_flags() {
    assert_eq!(steel::count_matches(&vec![]), 0);
    assert_eq!(steel::count_matches(&vec![true, false, true, true]), 3);
    assert_eq!(steel::count_matches(&vec![false, false]), 0);
}
