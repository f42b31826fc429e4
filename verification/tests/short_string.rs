use starknetid_resolver::felt::Felt;
use starknetid_resolver::short_string::{
    cairo_short_string_to_felt, parse_cairo_short_string, ParseShortStringError, ShortStringError,
};

fn felt_of(tail: &[u8]) -> Felt {
    let mut bytes = [0u8; 32];
    bytes[32 - tail.len()..].copy_from_slice(tail);
    Felt::from_bytes_be(bytes).expect("canonical")
}

#[test]
fn packs_a_field_name() {
    let felt = cairo_short_string_to_felt("discord").unwrap();
    assert!(felt.equals(&felt_of(b"discord")));
    assert!(felt.equals(&Felt::from_u64(0x64_6973_636f_7264)));
    assert_eq!(felt.to_string(), "28263441981469284");
}

#[test]
fn packs_the_empty_string_into_zero() {
    assert!(cairo_short_string_to_felt("").unwrap().is_zero());
}

#[test]
fn packs_thirty_one_characters() {
    let text = "abcdefghijklmnopqrstuvwxyz01234";
    assert_eq!(text.len(), 31);
    let felt = cairo_short_string_to_felt(text).unwrap();
    assert!(felt.equals(&felt_of(text.as_bytes())));
    assert_eq!(felt.to_bytes_be()[0], 0);
    assert_eq!(felt.to_bytes_be()[1], b'a');
}

#[test]
fn refuses_thirty_two_characters() {
    let text = "abcdefghijklmnopqrstuvwxyz012345";
    assert_eq!(text.len(), 32);
    assert_eq!(cairo_short_string_to_felt(text).unwrap_err(), ShortStringError::StringTooLong);
    assert_eq!(cairo_short_string_to_felt(text).unwrap_err(), ShortStringError::StringTooLong);
}

#[test]
fn refuses_a_character_outside_ascii() {
    assert_eq!(
        cairo_short_string_to_felt("caf\u{e9}").unwrap_err(),
        ShortStringError::NonAsciiCharacter
    );
}

#[test]
fn a_long_string_outside_ascii_is_refused_for_its_characters() {
    let text = "\u{e9}".repeat(40);
    assert_eq!(cairo_short_string_to_felt(&text).unwrap_err(), ShortStringError::NonAsciiCharacter);
}

#[test]
fn sixteen_two_byte_characters_are_refused_for_their_characters() {
    let text = "\u{e9}".repeat(16);
    assert_eq!(text.len(), 32);
    assert_eq!(cairo_short_string_to_felt(&text).unwrap_err(), ShortStringError::NonAsciiCharacter);
}

#[test]
fn reads_back_what_was_packed() {
    for text in ["discord", "github", "twitter", "a", "", "name with spaces", "~!@#$%^&*()_+"] {
        let felt = cairo_short_string_to_felt(text).unwrap();
        assert_eq!(parse_cairo_short_string(&felt).unwrap(), text);
    }
    let longest = "abcdefghijklmnopqrstuvwxyz01234";
    let felt = cairo_short_string_to_felt(longest).unwrap();
    assert_eq!(parse_cairo_short_string(&felt).unwrap(), longest);
}

#[test]
fn a_leading_nul_is_lost_in_packing() {
    let felt = cairo_short_string_to_felt("\0a").unwrap();
    assert!(felt.equals(&felt_of(b"a")));
    assert_eq!(parse_cairo_short_string(&felt).unwrap(), "a");
}

#[test]
fn an_inner_nul_cannot_be_read_back() {
    let felt = cairo_short_string_to_felt("a\0b").unwrap();
    assert_eq!(
        parse_cairo_short_string(&felt).unwrap_err(),
        ParseShortStringError::UnexpectedNullTerminator
    );
}

#[test]
fn reads_zero_as_the_empty_string() {
    assert_eq!(parse_cairo_short_string(&Felt::zero()).unwrap(), "");
}

#[test]
fn refuses_an_element_of_thirty_two_bytes() {
    let mut bytes = [0u8; 32];
    bytes[0] = 1;
    let felt = Felt::from_bytes_be(bytes).unwrap();
    assert_eq!(
        parse_cairo_short_string(&felt).unwrap_err(),
        ParseShortStringError::ValueOutOfRange
    );
    bytes[31] = b'a';
    let felt = Felt::from_bytes_be(bytes).unwrap();
    assert_eq!(
        parse_cairo_short_string(&felt).unwrap_err(),
        ParseShortStringError::ValueOutOfRange
    );
}

#[test]
fn refuses_a_zero_byte_behind_text() {
    assert_eq!(
        parse_cairo_short_string(&felt_of(&[b'a', 0])).unwrap_err(),
        ParseShortStringError::UnexpectedNullTerminator
    );
    assert_eq!(
        parse_cairo_short_string(&Felt::from_u64(256)).unwrap_err(),
        ParseShortStringError::UnexpectedNullTerminator
    );
}

#[test]
fn reads_a_high_byte_as_the_character_of_that_code() {
    assert_eq!(parse_cairo_short_string(&felt_of(&[0xe9])).unwrap(), "\u{e9}");
    assert_eq!(parse_cairo_short_string(&felt_of(&[b'a', 0xff])).unwrap(), "a\u{ff}");
}

#[test]
fn reads_thirty_one_bytes() {
    let bytes = [b'z'; 31];
    assert_eq!(parse_cairo_short_string(&felt_of(&bytes)).unwrap(), "z".repeat(31));
}
