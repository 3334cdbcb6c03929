//! Text: what the reader needs to know of strings, stated over sequences of
//! characters.
//!
//! The functions of the standard library that the reader calls on strings,
//! and of which the verifier knows nothing by itself, stand together in the
//! middle of this file. Each stands in the body of a small function whose
//! contract says what the standard library documents of it; those
//! contracts are taken on trust.

use crate::validate::check_eq_2bs;
use vstd::prelude::*;
use vstd::utf8::{decode_utf8, encode_utf8, valid_utf8};

verus! {

/// Number of bytes that `s` takes in UTF-8.
pub open spec fn byte_len(s: Seq<char>) -> nat {
    encode_utf8(s).len()
}

/// Whether two names are the same and not empty.
pub open spec fn same_name(a: Seq<char>, b: Seq<char>) -> bool {
    a == b && a.len() > 0
}

/// Two texts have the same bytes exactly if they are the same text, and a
/// text has no bytes exactly if it has no characters.
pub proof fn lemma_bytes_tell_texts_apart(a: Seq<char>, b: Seq<char>)
    ensures
        encode_utf8(a) == encode_utf8(b) <==> a == b,
        encode_utf8(a).len() == 0 <==> a.len() == 0,
{
    vstd::utf8::encode_utf8_decode_utf8(a);
    vstd::utf8::encode_utf8_decode_utf8(b);
    if encode_utf8(a).len() == 0 {
        let none = Seq::<char>::empty();
        vstd::utf8::encode_utf8_decode_utf8(none);
        assert(encode_utf8(a) =~= encode_utf8(none));
    }
}

/// The characters that Unicode counts as white space.
pub open spec fn is_white_space(c: char) -> bool {
    let u = c as u32;
    (0x09 <= u <= 0x0D) || u == 0x20 || u == 0x85 || u == 0xA0 || u == 0x1680 || (0x2000 <= u
        <= 0x200A) || u == 0x2028 || u == 0x2029 || u == 0x202F || u == 0x205F || u == 0x3000
}

/// `s` without its longest prefix of characters that `strip` holds of.
pub open spec fn trim_start_by(s: Seq<char>, strip: spec_fn(char) -> bool) -> Seq<char>
    decreases s.len(),
{
    if s.len() > 0 && strip(s[0]) {
        trim_start_by(s.drop_first(), strip)
    } else {
        s
    }
}

/// `s` without its longest suffix of characters that `strip` holds of.
pub open spec fn trim_end_by(s: Seq<char>, strip: spec_fn(char) -> bool) -> Seq<char>
    decreases s.len(),
{
    if s.len() > 0 && strip(s.last()) {
        trim_end_by(s.drop_last(), strip)
    } else {
        s
    }
}

/// `s` without leading and trailing white space.
pub open spec fn trim_ws(s: Seq<char>) -> Seq<char> {
    trim_end_by(trim_start_by(s, |c: char| is_white_space(c)), |c: char| is_white_space(c))
}

/// `s` without leading and trailing occurrences of `pat`.
pub open spec fn trim_char(s: Seq<char>, pat: char) -> Seq<char> {
    trim_end_by(trim_start_by(s, |c: char| c == pat), |c: char| c == pat)
}

/// The maximal runs of characters of `s` that are not white space, in order;
/// `cur` is the run that has been read so far.
pub open spec fn split_ws_from(s: Seq<char>, cur: Seq<char>) -> Seq<Seq<char>>
    decreases s.len(),
{
    let done: Seq<Seq<char>> = if cur.len() > 0 {
        seq![cur]
    } else {
        seq![]
    };
    if s.len() == 0 {
        done
    } else if is_white_space(s[0]) {
        done + split_ws_from(s.drop_first(), seq![])
    } else {
        split_ws_from(s.drop_first(), cur.push(s[0]))
    }
}

/// The words of `s`: its maximal runs of characters that are not white space.
pub open spec fn split_ws(s: Seq<char>) -> Seq<Seq<char>> {
    split_ws_from(s, seq![])
}

/// `c` with an ASCII capital letter turned into its small letter.
pub open spec fn ascii_lower_char(c: char) -> char {
    if 0x41 <= c as u32 <= 0x5A {
        ((c as u32 + 0x20) as u32) as char
    } else {
        c
    }
}

/// `s` with every ASCII capital letter turned into its small letter.
pub open spec fn ascii_lower(s: Seq<char>) -> Seq<char> {
    s.map_values(|c: char| ascii_lower_char(c))
}

/// Whether two texts are equal up to the case of their ASCII letters.
pub open spec fn eq_ignore_case(a: Seq<char>, b: Seq<char>) -> bool {
    ascii_lower(a) == ascii_lower(b)
}

/// The value of `c` as a digit in base `radix`, where it is one: `0` to `9`,
/// then the letters of either case from ten on.
pub open spec fn digit_value(c: char, radix: int) -> Option<int> {
    let u = c as u32;
    let v: int = if 0x30 <= u <= 0x39 {
        u - 0x30
    } else if 0x61 <= u <= 0x7A {
        u - 0x61 + 10
    } else if 0x41 <= u <= 0x5A {
        u - 0x41 + 10
    } else {
        radix
    };
    if v < radix {
        Some(v)
    } else {
        None
    }
}

/// Whether `s` is a non-empty run of digits in base `radix`.
pub open spec fn is_number(s: Seq<char>, radix: int) -> bool {
    s.len() > 0 && forall|i: int| 0 <= i < s.len() ==> (#[trigger] digit_value(s[i], radix)) is Some
}

/// The number that the digits `s` denote in base `radix`.
pub open spec fn number_value(s: Seq<char>, radix: int) -> int
    decreases s.len(),
{
    if s.len() == 0 {
        0
    } else {
        number_value(s.drop_last(), radix) * radix + digit_value(s.last(), radix).unwrap_or(0)
    }
}

/// An unsigned number: an optional `+`, then digits, with a value of at most
/// `max`.
pub open spec fn parse_unsigned(s: Seq<char>, radix: int, max: int) -> Option<int> {
    let digits = if s.len() > 0 && s[0] == '+' {
        s.drop_first()
    } else {
        s
    };
    if is_number(digits, radix) && number_value(digits, radix) <= max {
        Some(number_value(digits, radix))
    } else {
        None
    }
}

/// A signed number: an optional `+` or `-`, then digits, with a value from
/// `min` to `max`.
pub open spec fn parse_signed(s: Seq<char>, radix: int, min: int, max: int) -> Option<int> {
    let negative = s.len() > 0 && s[0] == '-';
    let digits = if s.len() > 0 && (s[0] == '+' || s[0] == '-') {
        s.drop_first()
    } else {
        s
    };
    let value = if negative {
        -number_value(digits, radix)
    } else {
        number_value(digits, radix)
    };
    if is_number(digits, radix) && min <= value <= max {
        Some(value)
    } else {
        None
    }
}

/// The decimal `u32` that `s` spells, if it spells one.
pub open spec fn parse_u32(s: Seq<char>) -> Option<u32> {
    match parse_unsigned(s, 10, u32::MAX as int) {
        Some(v) => Some(v as u32),
        None => None,
    }
}

/// The hexadecimal `u32` that `s` spells, if it spells one.
pub open spec fn parse_hex_u32(s: Seq<char>) -> Option<u32> {
    match parse_unsigned(s, 16, u32::MAX as int) {
        Some(v) => Some(v as u32),
        None => None,
    }
}

/// The hexadecimal `u8` that `s` spells, if it spells one.
pub open spec fn parse_hex_u8(s: Seq<char>) -> Option<u8> {
    match parse_unsigned(s, 16, u8::MAX as int) {
        Some(v) => Some(v as u8),
        None => None,
    }
}

/// The decimal `i32` that `s` spells, if it spells one.
pub open spec fn parse_i32(s: Seq<char>) -> Option<i32> {
    match parse_signed(s, 10, i32::MIN as int, i32::MAX as int) {
        Some(v) => Some(v as i32),
        None => None,
    }
}

/// The decimal `i16` that `s` spells, if it spells one.
pub open spec fn parse_i16(s: Seq<char>) -> Option<i16> {
    match parse_signed(s, 10, i16::MIN as int, i16::MAX as int) {
        Some(v) => Some(v as i16),
        None => None,
    }
}

/// What `char::is_alphanumeric` answers for `c`: whether Unicode counts it
/// as a letter or a number.
pub uninterp spec fn unicode_alphanumeric(c: char) -> bool;

/// The views of a vector of strings.
pub open spec fn string_views(v: Seq<String>) -> Seq<Seq<char>> {
    v.map_values(|s: String| s@)
}

/// The view of an optional string.
pub open spec fn opt_string_view(o: Option<String>) -> Option<Seq<char>> {
    match o {
        Some(s) => Some(s@),
        None => None,
    }
}

/// The text of an optional attribute: empty where it is absent.
pub open spec fn text_or_empty(o: Option<Seq<char>>) -> Seq<char> {
    match o {
        Some(t) => t,
        None => seq![],
    }
}

/// The trimmed text of an optional attribute: empty where it is absent.
pub open spec fn trimmed_or_empty(o: Option<Seq<char>>) -> Seq<char> {
    match o {
        Some(t) => trim_ws(t),
        None => seq![],
    }
}

/// The trimmed text of an optional attribute, or `default` where it is absent.
pub open spec fn trimmed_or(o: Option<Seq<char>>, default: Seq<char>) -> Seq<char> {
    match o {
        Some(t) => trim_ws(t),
        None => default,
    }
}

/// Whether an optional attribute is present and spells `word`, white space
/// around it and the case of its letters set aside.
pub open spec fn attr_is(o: Option<Seq<char>>, word: Seq<char>) -> bool {
    match o {
        Some(t) => eq_ignore_case(trim_ws(t), word),
        None => false,
    }
}

/// The number that an optional attribute gives: `default` where it is
/// absent, nothing where its trimmed text spells no `u32`.
pub open spec fn number_or(o: Option<Seq<char>>, default: u32) -> Option<u32> {
    match o {
        Some(t) => parse_u32(trim_ws(t)),
        None => Some(default),
    }
}

/// The number that an optional attribute gives: `default` where it is
/// absent or where its trimmed text spells no `u32`.
pub open spec fn number_or_else(o: Option<Seq<char>>, default: u32) -> u32 {
    match number_or(o, default) {
        Some(v) => v,
        None => default,
    }
}

/// `str::trim`: the text between the first and the last character that is
/// not Unicode white space.
#[verifier::external_body]
pub(crate) fn str_trim(s: &str) -> (r: &str)
    ensures
        r@ == trim_ws(s@),
{
    s.trim()
}

/// `str::trim_matches` with a character as the pattern: the text without its
/// leading and trailing occurrences of that character.
#[verifier::external_body]
pub(crate) fn str_trim_matches(s: &str, pat: char) -> (r: &str)
    ensures
        r@ == trim_char(s@, pat),
{
    s.trim_matches(pat)
}

/// `str::split_whitespace`: the non-empty pieces of the text between runs of
/// Unicode white space, each as a string of its own.
#[verifier::external_body]
pub(crate) fn str_split_whitespace(s: &str) -> (r: Vec<String>)
    ensures
        string_views(r@) == split_ws(s@),
{
    s.split_whitespace().map(String::from).collect()
}

/// `str::to_ascii_lowercase`: a copy in which `A` to `Z` are replaced by `a`
/// to `z` and every other character is kept.
#[verifier::external_body]
pub(crate) fn str_to_ascii_lowercase(s: &str) -> (r: String)
    ensures
        r@ == ascii_lower(s@),
{
    s.to_ascii_lowercase()
}

/// `str::parse::<u32>`: an optional `+` and decimal digits; anything else,
/// the empty text and a value beyond `u32` are refused.
#[verifier::external_body]
pub(crate) fn str_parse_u32(s: &str) -> (r: Option<u32>)
    ensures
        r == parse_u32(s@),
{
    s.parse::<u32>().ok()
}

/// `str::parse::<i32>`: an optional sign and decimal digits; anything else,
/// the empty text and a value beyond `i32` are refused.
#[verifier::external_body]
pub(crate) fn str_parse_i32(s: &str) -> (r: Option<i32>)
    ensures
        r == parse_i32(s@),
{
    s.parse::<i32>().ok()
}

/// `str::parse::<i16>`: an optional sign and decimal digits; anything else,
/// the empty text and a value beyond `i16` are refused.
#[verifier::external_body]
pub(crate) fn str_parse_i16(s: &str) -> (r: Option<i16>)
    ensures
        r == parse_i16(s@),
{
    s.parse::<i16>().ok()
}

/// `u32::from_str_radix` in base 16: an optional `+` and hexadecimal digits
/// of either case; anything else, the empty text and a value beyond `u32`
/// are refused.
#[verifier::external_body]
pub(crate) fn u32_from_hex(s: &str) -> (r: Option<u32>)
    ensures
        r == parse_hex_u32(s@),
{
    u32::from_str_radix(s, 16).ok()
}

/// `u8::from_str_radix` in base 16: an optional `+` and hexadecimal
/// digits of either case; anything else, the empty text and a value
/// beyond `u8` are refused.
#[verifier::external_body]
pub(crate) fn u8_from_hex(s: &str) -> (r: Option<u8>)
    ensures
        r == parse_hex_u8(s@),
{
    u8::from_str_radix(s, 16).ok()
}

/// `char::is_alphanumeric`.
#[verifier::external_body]
pub(crate) fn char_is_alphanumeric(c: char) -> (r: bool)
    ensures
        r == unicode_alphanumeric(c),
{
    c.is_alphanumeric()
}

/// `std::str::from_utf8`: the text that bytes spell in UTF-8, or nothing
/// where they are no UTF-8.
#[verifier::external_body]
pub(crate) fn utf8_text(bytes: &[u8]) -> (r: Option<String>)
    ensures
        r is Some <==> valid_utf8(bytes@),
        r matches Some(s) ==> s@ == decode_utf8(bytes@),
{
    match std::str::from_utf8(bytes) {
        Ok(s) => Some(s.to_string()),
        Err(_) => None,
    }
}

/// `String::push`: the string with one more character at its end.
#[verifier::external_body]
pub(crate) fn string_push(s: &mut String, c: char)
    ensures
        final(s)@ == old(s)@.push(c),
{
    s.push(c)
}

/// The length of `s` in bytes.
pub fn str_byte_len(s: &str) -> (n: usize)
    ensures
        n == byte_len(s@),
{
    s.as_bytes().len()
}

/// Whether two names are the same and not empty.
pub fn same_text(a: &str, b: &str) -> (r: bool)
    ensures
        r == same_name(a@, b@),
{
    proof {
        lemma_bytes_tell_texts_apart(a@, b@);
    }
    check_eq_2bs(a.as_bytes(), b.as_bytes())
}

/// Whether `a` and `b` hold the same characters.
pub fn str_eq(a: &str, b: &str) -> (r: bool)
    ensures
        r == (a@ == b@),
{
    let x = a.to_string();
    let y = b.to_string();
    x == y
}

/// The text of an optional attribute.
pub fn or_empty(o: Option<String>) -> (r: String)
    ensures
        r@ == text_or_empty(opt_string_view(o)),
{
    match o {
        Some(t) => t,
        None => String::new(),
    }
}

/// The trimmed text of an optional attribute.
pub fn trim_or_empty(o: &Option<String>) -> (r: String)
    ensures
        r@ == trimmed_or_empty(opt_string_view(*o)),
{
    match o {
        Some(t) => str_trim(t.as_str()).to_string(),
        None => String::new(),
    }
}

/// The trimmed text of an optional attribute, or `default`.
pub fn trim_or(o: &Option<String>, default: &str) -> (r: String)
    ensures
        r@ == trimmed_or(opt_string_view(*o), default@),
{
    match o {
        Some(t) => str_trim(t.as_str()).to_string(),
        None => default.to_string(),
    }
}

/// A text without the white space around it, as a string of its own.
pub fn trimmed(t: &str) -> (r: String)
    ensures
        r@ == trim_ws(t@),
{
    str_trim(t).to_string()
}

/// Whether an optional attribute spells `word`.
pub fn attr_spells(o: &Option<String>, word: &str) -> (r: bool)
    ensures
        r == attr_is(opt_string_view(*o), word@),
{
    match o {
        Some(t) => {
            let a = str_to_ascii_lowercase(str_trim(t.as_str()));
            let b = str_to_ascii_lowercase(word);
            a == b
        },
        None => false,
    }
}

/// Reads the number of an optional attribute.
pub fn read_number_or(o: &Option<String>, default: u32) -> (r: Option<u32>)
    ensures
        r == number_or(opt_string_view(*o), default),
{
    match o {
        Some(t) => str_parse_u32(str_trim(t.as_str())),
        None => Some(default),
    }
}

/// Reads the number of an optional attribute, falling back on `default`.
pub fn read_number_or_else(o: &Option<String>, default: u32) -> (r: u32)
    ensures
        r == number_or_else(opt_string_view(*o), default),
{
    match read_number_or(o, default) {
        Some(v) => v,
        None => default,
    }
}

} // verus!
