//! Cairo short strings: a string of at most 31 ASCII characters packed into
//! one field element, the first character in the most significant byte used.

use crate::felt::{
    be_value, felt_prime, lemma_be_value_bound, lemma_pow256_add, lemma_pow256_positive, pow256, Felt,
};
use vstd::prelude::*;
use vstd::utf8::is_ascii_chars;

verus! {

/// Largest number of characters in a short string.
pub const MAX_SHORT_STRING_LEN: usize = 31;

/// Why a string is no short string.
#[derive(Clone, Copy, Debug, PartialEq, Eq, Structural)]
pub enum ShortStringError {
    /// The string holds a character outside ASCII.
    NonAsciiCharacter,
    /// The string has more than 31 characters.
    StringTooLong,
}

/// Why a field element holds no short string.
#[derive(Clone, Copy, Debug, PartialEq, Eq, Structural)]
pub enum ParseShortStringError {
    /// The element does not fit in 31 bytes.
    ValueOutOfRange,
    /// A zero byte follows a byte that is not zero.
    UnexpectedNullTerminator,
}

/// The bytes of a string of ASCII characters.
pub open spec fn char_bytes(s: Seq<char>) -> Seq<u8> {
    s.map_values(|c: char| c as u8)
}

/// The characters that bytes stand for, each byte one character.
pub open spec fn byte_chars(bytes: Seq<u8>) -> Seq<char> {
    bytes.map_values(|b: u8| b as char)
}

/// The bytes of a number, most significant first, without leading zeros.
pub open spec fn be_digits(n: nat) -> Seq<u8>
    decreases n,
{
    if n == 0 {
        Seq::empty()
    } else {
        be_digits(n / 256).push((n % 256) as u8)
    }
}

/// The value of the field element that a string packs into, or why it packs
/// into none.
pub open spec fn spec_short_string_to_felt(s: Seq<char>) -> Result<nat, ShortStringError> {
    if !is_ascii_chars(s) {
        Err(ShortStringError::NonAsciiCharacter)
    } else if s.len() > MAX_SHORT_STRING_LEN {
        Err(ShortStringError::StringTooLong)
    } else {
        Ok(be_value(char_bytes(s)))
    }
}

/// The string that a field element of value `n` holds, or why it holds none.
pub open spec fn spec_parse_short_string(n: nat) -> Result<Seq<char>, ParseShortStringError> {
    if n >= pow256(MAX_SHORT_STRING_LEN as nat) {
        Err(ParseShortStringError::ValueOutOfRange)
    } else if be_digits(n).contains(0u8) {
        Err(ParseShortStringError::UnexpectedNullTerminator)
    } else {
        Ok(byte_chars(be_digits(n)))
    }
}

/// Bytes none of which is zero are the digits of the number they denote.
pub proof fn lemma_digits_of_value(bytes: Seq<u8>)
    requires
        forall|i: int| 0 <= i < bytes.len() ==> bytes[i] != 0,
    ensures
        be_digits(be_value(bytes)) == bytes,
    decreases bytes.len(),
{
    if bytes.len() == 0 {
        assert(be_digits(0) =~= bytes);
    } else {
        let front = bytes.drop_last();
        let last = bytes.last();
        lemma_digits_of_value(front);
        let v = be_value(bytes);
        assert(v == be_value(front) * 256 + last);
        assert(last != 0);
        assert(v / 256 == be_value(front));
        assert(v % 256 == last);
        assert(be_digits(v) == be_digits(v / 256).push((v % 256) as u8));
        assert(front.push(last) =~= bytes);
    }
}

/// `256^a` is at most `256^b` where `a` is at most `b`.
pub proof fn lemma_pow256_monotonic(a: nat, b: nat)
    requires
        a <= b,
    ensures
        pow256(a) <= pow256(b),
{
    let d = (b - a) as nat;
    lemma_pow256_add(a, d);
    lemma_pow256_positive(d);
    lemma_pow256_positive(a);
    let x = pow256(a);
    let y = pow256(d);
    assert(x <= x * y) by (nonlinear_arith)
        requires
            x > 0,
            y > 0,
    ;
}

/// Packing and reading back gives the string packed: a string of at most 31
/// ASCII characters, none of them NUL, packs into a field element, and that
/// element holds the string.
pub proof fn lemma_short_string_round_trip(s: Seq<char>)
    requires
        is_ascii_chars(s),
        s.len() <= MAX_SHORT_STRING_LEN,
        forall|i: int| 0 <= i < s.len() ==> s[i] != '\0',
    ensures
        spec_short_string_to_felt(s) matches Ok(n) && spec_parse_short_string(n) == Ok::<
            Seq<char>,
            ParseShortStringError,
        >(s),
{
    let bytes = char_bytes(s);
    let n = be_value(bytes);
    assert forall|i: int| 0 <= i < bytes.len() implies bytes[i] != 0 && bytes[i] as char
        == s[i] by {
        let c = s[i];
        assert('\0' <= c <= '\u{7f}');
        assert(c != '\0');
        assert(bytes[i] == c as u8);
    }
    lemma_digits_of_value(bytes);
    lemma_be_value_bound(bytes);
    lemma_pow256_monotonic(bytes.len(), MAX_SHORT_STRING_LEN as nat);
    assert(!be_digits(n).contains(0u8));
    assert(byte_chars(bytes) =~= s);
}

/// A string of more than 31 characters packs into no field element.
pub proof fn lemma_long_string_rejected(s: Seq<char>)
    requires
        s.len() > MAX_SHORT_STRING_LEN,
    ensures
        spec_short_string_to_felt(s) is Err,
{
}

/// Calls `starknet::core::utils::cairo_short_string_to_felt` and hands back
/// the big-endian bytes of the element it made.
///
/// Trusted: the call fails with `NonAsciiCharacter` on a string with a
/// character outside ASCII, else with `StringTooLong` on one of more than 31
/// bytes; on any other string it gives the element whose big-endian bytes
/// are the string's bytes behind leading zeros.
#[verifier::external_body]
fn short_string_bytes(s: &str) -> (r: Result<[u8; 32], ShortStringError>)
    ensures
        match spec_short_string_to_felt(s@) {
            Ok(n) => r matches Ok(bytes) && be_value(bytes@) == n && n < felt_prime(),
            Err(e) => r == Err::<[u8; 32], ShortStringError>(e),
        },
{
    match starknet::core::utils::cairo_short_string_to_felt(s) {
        Ok(felt) => Ok(felt.to_bytes_be()),
        Err(starknet::core::utils::CairoShortStringToFeltError::NonAsciiCharacter) => Err(
            ShortStringError::NonAsciiCharacter,
        ),
        Err(starknet::core::utils::CairoShortStringToFeltError::StringTooLong) => Err(ShortStringError::StringTooLong),
    }
}

/// Calls `starknet::core::utils::parse_cairo_short_string` on the element
/// that the big-endian bytes denote. `None` if they denote no element.
///
/// Trusted: the call gives the empty string for zero, fails with
/// `ValueOutOfRange` where the element's first byte is not zero, fails with
/// `UnexpectedNullTerminator` where a zero byte follows a byte that is not
/// zero, and else gives one character for each byte behind the leading
/// zeros, the character whose code the byte is.
#[verifier::external_body]
fn parse_short_string_bytes(bytes: &[u8; 32]) -> (r: Option<
    Result<String, ParseShortStringError>,
>)
    ensures
        r is Some <==> be_value(bytes@) < felt_prime(),
        r matches Some(parsed) ==> match spec_parse_short_string(be_value(bytes@)) {
            Ok(s) => parsed matches Ok(text) && text@ == s,
            Err(e) => parsed == Err::<String, ParseShortStringError>(e),
        },
{
    let felt = starknet::core::types::FieldElement::from_bytes_be(bytes).ok()?;
    Some(
        match starknet::core::utils::parse_cairo_short_string(&felt) {
            Ok(text) => Ok(text),
            Err(starknet::core::utils::ParseCairoShortStringError::ValueOutOfRange) => Err(
                ParseShortStringError::ValueOutOfRange,
            ),
            Err(starknet::core::utils::ParseCairoShortStringError::UnexpectedNullTerminator) => Err(
                ParseShortStringError::UnexpectedNullTerminator,
            ),
        },
    )
}

/// Packs a string into a field element.
///
/// Fails on a string with a character outside ASCII, and on an ASCII string
/// of more than 31 characters.
pub fn cairo_short_string_to_felt(s: &str) -> (r: Result<Felt, ShortStringError>)
    ensures
        match spec_short_string_to_felt(s@) {
            Ok(n) => r matches Ok(felt) && felt@ == n,
            Err(e) => r == Err::<Felt, ShortStringError>(e),
        },
{
    match short_string_bytes(s) {
        Ok(bytes) => Ok(Felt::from_canonical_bytes(bytes)),
        Err(e) => Err(e),
    }
}

/// Reads the string that a field element holds.
///
/// Fails on an element that does not fit in 31 bytes, and on one in which a
/// zero byte follows a byte that is not zero.
pub fn parse_cairo_short_string(felt: &Felt) -> (r: Result<String, ParseShortStringError>)
    ensures
        match spec_parse_short_string(felt@) {
            Ok(s) => r matches Ok(text) && text@ == s,
            Err(e) => r == Err::<String, ParseShortStringError>(e),
        },
{
    let bytes = felt.to_bytes_be();
    parse_short_string_bytes(&bytes).unwrap()
}

} // verus!
