//! Validators and converters for the texts of a document: legal names,
//! comparisons, hexadecimal strings, object identifiers and addresses.

use crate::consts::MAX_OBJID_COMPONENTS;
use crate::error::SclError;
use crate::model::{MmsObjId, MmsObjIdView};
use crate::text::{
    char_is_alphanumeric, eq_ignore_case, parse_i16, split_ws, str_parse_i16, str_split_whitespace,
    str_to_ascii_lowercase, str_trim, str_trim_matches, string_views, trim_char, trim_ws,
    unicode_alphanumeric,
};
use std::str::FromStr;
use vstd::prelude::*;
use vstd::utf8::encode_utf8;

verus! {

/// An ASCII letter or digit.
pub open spec fn is_ascii_alnum(b: u8) -> bool {
    (0x30 <= b <= 0x39) || (0x41 <= b <= 0x5A) || (0x61 <= b <= 0x7A)
}

/// A component name is legal if it holds only ASCII letters, digits and `_`.
pub open spec fn comp_name_legal(s: Seq<u8>) -> bool {
    forall|i: int| 0 <= i < s.len() ==> is_ascii_alnum(#[trigger] s[i]) || s[i] == 0x5F
}

/// A character that an MMS identifier may hold: a letter or number, `_` or `$`.
pub open spec fn mms_char_legal(c: char) -> bool {
    unicode_alphanumeric(c) || c == '_' || c == '$'
}

/// An MMS identifier is legal if each of its characters is.
pub open spec fn mms_ident_legal(s: Seq<char>) -> bool {
    forall|i: int| 0 <= i < s.len() ==> mms_char_legal(#[trigger] s[i])
}

/// Whether two byte strings are equal and not empty.
pub open spec fn eq_2bs(a: Seq<u8>, b: Seq<u8>) -> bool {
    a == b && a.len() > 0
}

/// Checks that a component name holds only ASCII letters, digits and `_`.
pub fn chk_comp_name_legal(input_str: &[u8]) -> (r: Result<(), SclError>)
    ensures
        r is Ok <==> comp_name_legal(input_str@),
        r is Err ==> r == Err::<(), SclError>(SclError::IllegalComponentName),
{
    let n = input_str.len();
    let mut i: usize = 0;
    while i < n
        invariant
            n == input_str@.len(),
            i <= n,
            forall|j: int|
                0 <= j < i ==> is_ascii_alnum(#[trigger] input_str@[j]) || input_str@[j] == 0x5F,
        decreases n - i,
    {
        let e = input_str[i];
        let alnum = (0x30 <= e && e <= 0x39) || (0x41 <= e && e <= 0x5A) || (0x61 <= e && e
            <= 0x7A);
        if !alnum && e != 0x5F {
            return Err(SclError::IllegalComponentName);
        }
        i = i + 1;
    }
    Ok(())
}

/// Whether `c` may stand in an MMS identifier, given whether it is a letter
/// or a number.
pub fn is_mms_ident_char(c: char, alphanumeric: bool) -> (r: bool)
    ensures
        r == (alphanumeric || c == '_' || c == '$'),
{
    alphanumeric || c == '_' || c == '$'
}

/// Checks that a name holds only letters, numbers, `_` and `$`.
pub fn chk_mms_ident_legal(name: &str) -> (r: bool)
    ensures
        r == mms_ident_legal(name@),
{
    for pchar in it: name.chars()
        invariant
            it.seq() == name@,
            forall|j: int| 0 <= j < it.index() ==> mms_char_legal(#[trigger] name@[j]),
    {
        let alnum = char_is_alphanumeric(pchar);
        if !is_mms_ident_char(pchar, alnum) {
            return false;
        }
    }
    true
}

/// Whether two byte strings are equal and not empty.
pub fn check_eq_2bs(a: &[u8], b: &[u8]) -> (r: bool)
    ensures
        r == eq_2bs(a@, b@),
{
    if a.len() != b.len() {
        return false;
    }
    if a.len() == 0 {
        return false;
    }
    let n = a.len();
    let mut i: usize = 0;
    while i < n
        invariant
            n == a@.len(),
            n == b@.len(),
            i <= n,
            forall|j: int| 0 <= j < i ==> a@[j] == b@[j],
        decreases n - i,
    {
        if a[i] != b[i] {
            return false;
        }
        i = i + 1;
    }
    assert(a@ =~= b@);
    true
}

/// Whether two texts are equal up to the case of their ASCII letters.
pub fn check_eq_2str_incaseinse(a: &str, b: &str) -> (r: bool)
    ensures
        r == eq_ignore_case(a@, b@),
{
    let ai = str_to_ascii_lowercase(a);
    let bi = str_to_ascii_lowercase(b);
    ai == bi
}

/// The value of a hexadecimal digit.
pub open spec fn hex_digit(c: u8) -> Option<u8> {
    if 0x30 <= c <= 0x39 {
        Some((c - 0x30) as u8)
    } else if 0x41 <= c <= 0x46 {
        Some((c - 0x41 + 10) as u8)
    } else if 0x61 <= c <= 0x66 {
        Some((c - 0x61 + 10) as u8)
    } else {
        None
    }
}

/// ASCII white space: blank, tab, line feed, form feed, carriage return.
pub open spec fn is_ascii_space(c: u8) -> bool {
    c == 0x20 || c == 0x09 || c == 0x0A || c == 0x0C || c == 0x0D
}

/// How far a hexadecimal text has been read: the bytes that are complete,
/// and the high half of the next one if a single digit has been seen.
pub struct HexScan {
    pub bytes: Seq<u8>,
    pub pending: Option<u8>,
}

/// Reading one more character of a hexadecimal text that may give at most
/// `max` bytes.
pub open spec fn hex_scan_step(st: HexScan, c: u8, max: nat) -> Result<HexScan, SclError> {
    match hex_digit(c) {
        Some(d) => if st.bytes.len() >= max {
            Err(SclError::HexTooLong)
        } else {
            match st.pending {
                Some(h) => Ok(HexScan { bytes: st.bytes.push((h * 16 + d) as u8), pending: None }),
                None => Ok(HexScan { bytes: st.bytes, pending: Some(d) }),
            }
        },
        None => if is_ascii_space(c) {
            Ok(st)
        } else {
            Err(SclError::HexIllegalChar)
        },
    }
}

/// Reading a hexadecimal text from its first character on.
pub open spec fn hex_scan(s: Seq<u8>, max: nat) -> Result<HexScan, SclError>
    decreases s.len(),
{
    if s.len() == 0 {
        Ok(HexScan { bytes: seq![], pending: None })
    } else {
        match hex_scan(s.drop_last(), max) {
            Ok(st) => hex_scan_step(st, s.last(), max),
            Err(e) => Err(e),
        }
    }
}

/// The bytes that a hexadecimal text spells: its digits in pairs, white
/// space skipped. A digit that would start a byte beyond `max`, and any
/// other character, is refused where it stands; a text that ends with a
/// single digit, half a byte, is refused at its end.
pub open spec fn hex_str_bytes(s: Seq<u8>, max: nat) -> Result<Seq<u8>, SclError> {
    match hex_scan(s, max) {
        Ok(st) => if st.pending is Some {
            Err(SclError::HexOddDigits)
        } else {
            Ok(st.bytes)
        },
        Err(e) => Err(e),
    }
}

/// The value of a hexadecimal digit, if `c` is one.
pub fn hex_digit_value(c: u8) -> (r: Option<u8>)
    ensures
        r == hex_digit(c),
{
    if 0x30 <= c && c <= 0x39 {
        Some(c - 0x30)
    } else if 0x41 <= c && c <= 0x46 {
        Some(c - 0x41 + 10)
    } else if 0x61 <= c && c <= 0x66 {
        Some(c - 0x61 + 10)
    } else {
        None
    }
}

/// Converts hexadecimal text into bytes, at most `hlen_max` of them.
pub fn ascii_to_hex_str(hlen_max: u32, astr: &[u8]) -> (r: Result<Vec<u8>, SclError>)
    ensures
        match r {
            Ok(v) => hex_str_bytes(astr@, hlen_max as nat) == Ok::<Seq<u8>, SclError>(v@)
                && v@.len() <= hlen_max,
            Err(e) => hex_str_bytes(astr@, hlen_max as nat) == Err::<Seq<u8>, SclError>(e),
        },
{
    let mut hstr: Vec<u8> = Vec::new();
    let mut pending: Option<u8> = None;
    let n = astr.len();
    let mut i: usize = 0;
    assert(astr@.take(0) =~= Seq::<u8>::empty());
    while i < n
        invariant
            n == astr@.len(),
            i <= n,
            hstr@.len() <= hlen_max,
            hex_scan(astr@.take(i as int), hlen_max as nat) == Ok::<HexScan, SclError>(
                HexScan { bytes: hstr@, pending: pending },
            ),
            pending matches Some(h) ==> h < 16,
        decreases n - i,
    {
        let c = astr[i];
        proof {
            assert(astr@.take(i + 1).drop_last() =~= astr@.take(i as int));
            assert(astr@.take(i + 1).last() == c);
            if i + 1 == n {
                assert(astr@.take(i + 1) =~= astr@);
            }
        }
        match hex_digit_value(c) {
            Some(d) => {
                if hstr.len() >= hlen_max as usize {
                    proof {
                        lemma_hex_scan_err(astr@, i + 1, hlen_max as nat);
                    }
                    return Err(SclError::HexTooLong);
                }
                match pending {
                    Some(h) => {
                        hstr.push(h * 16 + d);
                        pending = None;
                    },
                    None => {
                        pending = Some(d);
                    },
                }
            },
            None => {
                let space = c == 0x20 || c == 0x09 || c == 0x0A || c == 0x0C || c == 0x0D;
                if !space {
                    proof {
                        lemma_hex_scan_err(astr@, i + 1, hlen_max as nat);
                    }
                    return Err(SclError::HexIllegalChar);
                }
            },
        }
        i = i + 1;
    }
    assert(astr@.take(n as int) =~= astr@);
    if pending.is_some() {
        return Err(SclError::HexOddDigits);
    }
    Ok(hstr)
}

/// Once a prefix of a hexadecimal text is refused, the whole text is
/// refused for the same reason.
pub proof fn lemma_hex_scan_err(s: Seq<u8>, k: int, max: nat)
    requires
        0 <= k <= s.len(),
        hex_scan(s.take(k), max) is Err,
    ensures
        hex_scan(s, max) == hex_scan(s.take(k), max),
    decreases s.len() - k,
{
    if k == s.len() {
        assert(s.take(k) =~= s);
    } else {
        assert(s.take(k + 1).drop_last() =~= s.take(k));
        lemma_hex_scan_err(s, k + 1, max);
    }
}

/// The text of one component of an object identifier: a word without the
/// white space and the double quotes around it.
pub open spec fn objid_word(w: Seq<char>) -> Seq<char> {
    trim_char(trim_ws(w), '"')
}

/// The components that the words of an object identifier spell.
pub open spec fn objid_comps(words: Seq<Seq<char>>) -> Result<Seq<i16>, SclError>
    decreases words.len(),
{
    if words.len() == 0 {
        Ok(seq![])
    } else {
        match objid_comps(words.drop_last()) {
            Err(e) => Err(e),
            Ok(c) => if c.len() >= MAX_OBJID_COMPONENTS {
                Err(SclError::ObjIdTooManyComponents)
            } else {
                match parse_i16(objid_word(words.last())) {
                    Some(v) => Ok(c.push(v)),
                    None => Err(SclError::ObjIdBadComponent),
                }
            },
        }
    }
}

/// `c` filled up with zeros to the full number of components.
pub open spec fn objid_padded(c: Seq<i16>) -> Seq<i16> {
    Seq::new(MAX_OBJID_COMPONENTS as nat, |i: int| if i < c.len() { c[i] } else { 0i16 })
}

/// The object identifier that a text spells: numbers separated by white
/// space, one to sixteen of them.
pub open spec fn objid_of(s: Seq<char>) -> Result<MmsObjIdView, SclError> {
    match objid_comps(split_ws(s)) {
        Err(e) => Err(e),
        Ok(c) => if c.len() == 0 {
            Err(SclError::ObjIdEmpty)
        } else {
            Ok(MmsObjIdView { num_comps: c.len() as i32, comps: objid_padded(c) })
        },
    }
}

/// Once the first words of an object identifier are refused, all of them
/// are refused for the same reason.
pub proof fn lemma_objid_comps_err(words: Seq<Seq<char>>, k: int)
    requires
        0 <= k <= words.len(),
        objid_comps(words.take(k)) is Err,
    ensures
        objid_comps(words) == objid_comps(words.take(k)),
    decreases words.len() - k,
{
    if k == words.len() {
        assert(words.take(k) =~= words);
    } else {
        assert(words.take(k + 1).drop_last() =~= words.take(k));
        lemma_objid_comps_err(words, k + 1);
    }
}

/// Converts a text into an object identifier.
pub fn ascii_to_objid(astr: &str) -> (r: Result<MmsObjId, SclError>)
    ensures
        match r {
            Ok(id) => objid_of(astr@) == Ok::<MmsObjIdView, SclError>(id@),
            Err(e) => objid_of(astr@) == Err::<MmsObjIdView, SclError>(e),
        },
{
    let mut num_comps: usize = 0;
    let mut comps: [i16; 16] = [0i16; 16];
    let words = str_split_whitespace(astr);
    let n = words.len();
    let mut i: usize = 0;
    let ghost ws = string_views(words@);
    let ghost mut got: Seq<i16> = seq![];
    assert(ws.take(0) =~= Seq::<Seq<char>>::empty());
    assert(comps@ =~= objid_padded(got));
    while i < n
        invariant
            n == words@.len(),
            ws == string_views(words@),
            ws == split_ws(astr@),
            i <= n,
            num_comps == got.len(),
            num_comps <= 16,
            objid_comps(ws.take(i as int)) == Ok::<Seq<i16>, SclError>(got),
            comps@ == objid_padded(got),
        decreases n - i,
    {
        proof {
            assert(ws.take(i + 1).drop_last() =~= ws.take(i as int));
            assert(ws.take(i + 1).last() == words@[i as int]@);
        }
        if num_comps >= MAX_OBJID_COMPONENTS {
            proof {
                lemma_objid_comps_err(ws, i + 1);
            }
            return Err(SclError::ObjIdTooManyComponents);
        }
        let ne = str_trim_matches(str_trim(words[i].as_str()), '"');
        match str_parse_i16(ne) {
            Some(num) => {
                comps[num_comps] = num;
                proof {
                    got = got.push(num);
                    assert(comps@ =~= objid_padded(got));
                }
                num_comps = num_comps + 1;
            },
            None => {
                proof {
                    lemma_objid_comps_err(ws, i + 1);
                }
                return Err(SclError::ObjIdBadComponent);
            },
        }
        i = i + 1;
    }
    assert(ws.take(n as int) =~= ws);
    if num_comps == 0 {
        Err(SclError::ObjIdEmpty)
    } else {
        Ok(MmsObjId { num_comps: num_comps as i32, comps })
    }
}

/// A decimal digit.
pub open spec fn is_dec_digit(b: u8) -> bool {
    0x30 <= b <= 0x39
}

/// The first place at or behind `pos` that holds no decimal digit.
pub open spec fn digits_end(s: Seq<u8>, pos: int) -> int
    decreases s.len() - pos,
{
    if 0 <= pos < s.len() && is_dec_digit(s[pos]) {
        digits_end(s, pos + 1)
    } else {
        pos
    }
}

/// The value of a decimal digit.
pub open spec fn dec_digit(b: u8) -> int {
    b - 0x30
}

/// The octet that the digits from `pos` up to `end` spell: one to three
/// digits, no zero before another digit, a value of at most 255.
pub open spec fn octet_at(s: Seq<u8>, pos: int, end: int) -> Option<u8> {
    let n = end - pos;
    let v: int = if n == 1 {
        dec_digit(s[pos])
    } else if n == 2 {
        dec_digit(s[pos]) * 10 + dec_digit(s[pos + 1])
    } else {
        dec_digit(s[pos]) * 100 + dec_digit(s[pos + 1]) * 10 + dec_digit(s[pos + 2])
    };
    if 1 <= n <= 3 && !(n > 1 && s[pos] == 0x30) && v <= 255 {
        Some(v as u8)
    } else {
        None
    }
}

/// The IPv4 address that `s` spells: four octets with a `.` between them
/// and nothing else.
pub open spec fn ipv4_of(s: Seq<u8>) -> Option<Seq<u8>> {
    let e0 = digits_end(s, 0);
    let e1 = digits_end(s, e0 + 1);
    let e2 = digits_end(s, e1 + 1);
    let e3 = digits_end(s, e2 + 1);
    if octet_at(s, 0, e0) is Some && e0 < s.len() && s[e0] == 0x2E
        && octet_at(s, e0 + 1, e1) is Some && e1 < s.len() && s[e1] == 0x2E
        && octet_at(s, e1 + 1, e2) is Some && e2 < s.len() && s[e2] == 0x2E
        && octet_at(s, e2 + 1, e3) is Some && e3 == s.len() {
        Some(
            seq![
                octet_at(s, 0, e0).unwrap(),
                octet_at(s, e0 + 1, e1).unwrap(),
                octet_at(s, e1 + 1, e2).unwrap(),
                octet_at(s, e2 + 1, e3).unwrap(),
            ],
        )
    } else {
        None
    }
}

/// Finds the end of the run of decimal digits that starts at `pos`.
fn scan_digits(b: &[u8], pos: usize) -> (end: usize)
    requires
        pos <= b@.len(),
    ensures
        end == digits_end(b@, pos as int),
        pos <= end <= b@.len(),
{
    let n = b.len();
    let mut i = pos;
    while i < n && 0x30 <= b[i] && b[i] <= 0x39
        invariant
            n == b@.len(),
            pos <= i <= n,
            digits_end(b@, pos as int) == digits_end(b@, i as int),
        decreases n - i,
    {
        i = i + 1;
    }
    i
}

/// Reads the octet whose digits run from `pos` up to `end`.
fn read_octet(b: &[u8], pos: usize, end: usize) -> (r: Option<u8>)
    requires
        pos <= end <= b@.len(),
        forall|j: int| pos <= j < end ==> is_dec_digit(#[trigger] b@[j]),
    ensures
        r == octet_at(b@, pos as int, end as int),
{
    let n = end - pos;
    if n < 1 || n > 3 {
        return None;
    }
    if n > 1 && b[pos] == 0x30 {
        return None;
    }
    let v: u32 = if n == 1 {
        (b[pos] - 0x30) as u32
    } else if n == 2 {
        (b[pos] - 0x30) as u32 * 10 + (b[pos + 1] - 0x30) as u32
    } else {
        (b[pos] - 0x30) as u32 * 100 + (b[pos + 1] - 0x30) as u32 * 10 + (b[pos + 2] - 0x30) as u32
    };
    if v <= 255 {
        Some(v as u8)
    } else {
        None
    }
}

/// Every place between `pos` and the end of its run of digits holds a digit.
pub proof fn lemma_digits_run(s: Seq<u8>, pos: int)
    requires
        0 <= pos <= s.len(),
    ensures
        pos <= digits_end(s, pos) <= s.len(),
        forall|j: int| pos <= j < digits_end(s, pos) ==> is_dec_digit(#[trigger] s[j]),
    decreases s.len() - pos,
{
    if pos < s.len() && is_dec_digit(s[pos]) {
        lemma_digits_run(s, pos + 1);
    }
}

/// Reads one octet of an address at `pos`; returns it with the place behind it.
fn octet_from(b: &[u8], pos: usize) -> (r: (Option<u8>, usize))
    requires
        pos <= b@.len(),
    ensures
        r.1 == digits_end(b@, pos as int),
        pos <= r.1 <= b@.len(),
        r.0 == octet_at(b@, pos as int, r.1 as int),
{
    let end = scan_digits(b, pos);
    proof {
        lemma_digits_run(b@, pos as int);
    }
    (read_octet(b, pos, end), end)
}

/// Converts a dotted text into an IPv4 address.
pub fn parse_ipv4(s: &str) -> (r: Option<[u8; 4]>)
    ensures
        match r {
            Some(a) => ipv4_of(encode_utf8(s@)) == Some(a@),
            None => ipv4_of(encode_utf8(s@)) is None,
        },
{
    let b = s.as_bytes();
    let n = b.len();
    let (o0, e0) = octet_from(b, 0);
    if o0.is_none() || e0 >= n || b[e0] != 0x2E {
        return None;
    }
    let (o1, e1) = octet_from(b, e0 + 1);
    if o1.is_none() || e1 >= n || b[e1] != 0x2E {
        return None;
    }
    let (o2, e2) = octet_from(b, e1 + 1);
    if o2.is_none() || e2 >= n || b[e2] != 0x2E {
        return None;
    }
    let (o3, e3) = octet_from(b, e2 + 1);
    if o3.is_none() || e3 != n {
        return None;
    }
    let a: [u8; 4] = [o0.unwrap(), o1.unwrap(), o2.unwrap(), o3.unwrap()];
    assert(a@ =~= seq![o0.unwrap(), o1.unwrap(), o2.unwrap(), o3.unwrap()]);
    Some(a)
}

/// What `MacAddress::from_str` of the crate `mac_address` makes of a text:
/// the six bytes of the address, or nothing where it refuses the text.
pub uninterp spec fn mac_address_of(s: Seq<char>) -> Option<Seq<u8>>;

/// `mac_address::MacAddress::from_str`, then `MacAddress::bytes`: the six
/// bytes of the address that the text spells, or nothing where the text is
/// refused.
#[verifier::external_body]
pub(crate) fn mac_from_str(s: &str) -> (r: Option<[u8; 6]>)
    ensures
        match r {
            Some(a) => mac_address_of(s@) == Some(a@),
            None => mac_address_of(s@) is None,
        },
{
    match mac_address::MacAddress::from_str(s) {
        Ok(m) => Some(m.bytes()),
        Err(_) => None,
    }
}

} // verus!
