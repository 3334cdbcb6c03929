use scl61850::bitstring::{bstr_bit_get, bstr_bit_set_off, bstr_bit_set_on};
use scl61850::comm::read_bounded_hex;
use scl61850::error::SclError;
use scl61850::flatname::{construct_flattened, flattened_parent};
use scl61850::text::{attr_spells, read_number_or, read_number_or_else, trimmed};
use scl61850::utils::{ascii_to_hex, hex_to_ascii};
use scl61850::validate::{
    ascii_to_hex_str, ascii_to_objid, check_eq_2bs, check_eq_2str_incaseinse,
    chk_comp_name_legal, chk_mms_ident_legal, hex_digit_value, is_mms_ident_char, parse_ipv4,
};

#[test]
fn bit_zero_is_the_top_bit_of_the_first_byte() {
    let mut buf = [0u8; 2];
    bstr_bit_set_on(&mut buf, 0);
    assert_eq!(buf, [0x80, 0x00]);
    bstr_bit_set_on(&mut buf, 7);
    assert_eq!(buf, [0x81, 0x00]);
    bstr_bit_set_on(&mut buf, 8);
    assert_eq!(buf, [0x81, 0x80]);
    bstr_bit_set_on(&mut buf, 15);
    assert_eq!(buf, [0x81, 0x81]);
}

#[test]
fn a_bit_beyond_the_buffer_is_left_alone() {
    let mut buf = [0u8; 1];
    bstr_bit_set_on(&mut buf, 8);
    assert_eq!(buf, [0x00]);
    assert!(!bstr_bit_get(&buf, 8));
    let mut full = [0xffu8; 1];
    bstr_bit_set_off(&mut full, 64);
    assert_eq!(full, [0xff]);
}

#[test]
fn set_then_get_then_clear() {
    let mut buf = [0u8; 2];
    for bit in 0..16usize {
        assert!(!bstr_bit_get(&buf, bit));
        bstr_bit_set_on(&mut buf, bit);
        assert!(bstr_bit_get(&buf, bit));
        for other in 0..16usize {
            if other != bit {
                assert!(!bstr_bit_get(&buf, other));
            }
        }
        bstr_bit_set_off(&mut buf, bit);
        assert_eq!(buf, [0, 0]);
    }
}

#[test]
fn clearing_keeps_the_other_bits() {
    let mut buf = [0xffu8; 1];
    bstr_bit_set_off(&mut buf, 1);
    assert_eq!(buf, [0xbf]);
    bstr_bit_set_off(&mut buf, 5);
    assert_eq!(buf, [0xbb]);
}

#[test]
fn component_names() {
    assert_eq!(chk_comp_name_legal(b"Abc_09z"), Ok(()));
    assert_eq!(chk_comp_name_legal(b""), Ok(()));
    assert_eq!(chk_comp_name_legal(b"a$b"), Err(SclError::IllegalComponentName));
    assert_eq!(chk_comp_name_legal(b"a b"), Err(SclError::IllegalComponentName));
    assert_eq!(chk_comp_name_legal("é".as_bytes()), Err(SclError::IllegalComponentName));
}

#[test]
fn mms_identifiers() {
    assert!(chk_mms_ident_legal("IED_1$LD0"));
    assert!(chk_mms_ident_legal(""));
    assert!(chk_mms_ident_legal("Gerät"));
    assert!(!chk_mms_ident_legal("a-b"));
    assert!(!chk_mms_ident_legal("a b"));
    assert!(is_mms_ident_char('$', false));
    assert!(is_mms_ident_char('_', false));
    assert!(is_mms_ident_char('x', true));
    assert!(!is_mms_ident_char('-', false));
}

#[test]
fn byte_strings_are_equal_only_if_not_empty() {
    assert!(check_eq_2bs(b"abc", b"abc"));
    assert!(!check_eq_2bs(b"abc", b"abd"));
    assert!(!check_eq_2bs(b"abc", b"ab"));
    assert!(!check_eq_2bs(b"", b""));
}

#[test]
fn case_of_ascii_letters_does_not_count() {
    assert!(check_eq_2str_incaseinse("OSI-psel", "osi-PSEL"));
    assert!(check_eq_2str_incaseinse("", ""));
    assert!(!check_eq_2str_incaseinse("true", "true "));
    assert!(!check_eq_2str_incaseinse("Ä", "ä"));
}

#[test]
fn hex_digits() {
    assert_eq!(hex_digit_value(b'0'), Some(0));
    assert_eq!(hex_digit_value(b'9'), Some(9));
    assert_eq!(hex_digit_value(b'a'), Some(10));
    assert_eq!(hex_digit_value(b'F'), Some(15));
    assert_eq!(hex_digit_value(b'g'), None);
    assert_eq!(hex_digit_value(b' '), None);
}

#[test]
fn hex_text_gives_bytes() {
    assert_eq!(ascii_to_hex_str(16, b"00 00 00 01"), Ok(vec![0, 0, 0, 1]));
    assert_eq!(ascii_to_hex_str(16, b"0aFf"), Ok(vec![0x0a, 0xff]));
    assert_eq!(ascii_to_hex_str(16, b" \t\r\n"), Ok(vec![]));
    assert_eq!(ascii_to_hex_str(16, b""), Ok(vec![]));
}

#[test]
fn an_odd_count_of_hex_digits_is_refused() {
    assert_eq!(ascii_to_hex_str(16, b"123"), Err(SclError::HexOddDigits));
    assert_eq!(ascii_to_hex_str(16, b"1"), Err(SclError::HexOddDigits));
    assert_eq!(ascii_to_hex_str(4, b"ABC"), Err(SclError::HexOddDigits));
    assert_eq!(ascii_to_hex_str(4, b"AB C "), Err(SclError::HexOddDigits));
    assert_eq!(ascii_to_hex_str(4, b"A B"), Ok(vec![0xAB]));
    assert_eq!(ascii_to_hex_str(4, b"ABCD"), Ok(vec![0xAB, 0xCD]));
    assert_eq!(ascii_to_hex_str(1, b"ABC"), Err(SclError::HexTooLong));
    assert_eq!(ascii_to_hex_str(4, b"ABCx"), Err(SclError::HexIllegalChar));
}

#[test]
fn hex_text_is_capped() {
    assert_eq!(ascii_to_hex_str(2, b"0102"), Ok(vec![1, 2]));
    assert_eq!(ascii_to_hex_str(2, b"01 02 "), Ok(vec![1, 2]));
    assert_eq!(ascii_to_hex_str(2, b"010203"), Err(SclError::HexTooLong));
    assert_eq!(ascii_to_hex_str(2, b"01020"), Err(SclError::HexTooLong));
    assert_eq!(ascii_to_hex_str(0, b"0"), Err(SclError::HexTooLong));
    assert_eq!(ascii_to_hex_str(0, b" "), Ok(vec![]));
}

#[test]
fn hex_text_with_a_stray_character_is_refused() {
    assert_eq!(ascii_to_hex_str(16, b"01x2"), Err(SclError::HexIllegalChar));
    assert_eq!(ascii_to_hex_str(16, b"01\x0b02"), Err(SclError::HexIllegalChar));
    assert_eq!(ascii_to_hex_str(1, b"0102zz"), Err(SclError::HexTooLong));
    assert_eq!(ascii_to_hex_str(1, b"01zz02"), Err(SclError::HexIllegalChar));
}

#[test]
fn object_identifiers() {
    let id = ascii_to_objid("1 3 9999 33").unwrap();
    assert_eq!(id.num_comps, 4);
    assert_eq!(id.comps, [1, 3, 9999, 33, 0, 0, 0, 0, 0, 0, 0, 0, 0, 0, 0, 0]);
    let quoted = ascii_to_objid(" \"1\"\t-2\n+3 ").unwrap();
    assert_eq!(quoted.num_comps, 3);
    assert_eq!(&quoted.comps[..3], &[1, -2, 3]);
}

#[test]
fn object_identifiers_that_are_refused() {
    assert_eq!(ascii_to_objid("").unwrap_err(), SclError::ObjIdEmpty);
    assert_eq!(ascii_to_objid("  \n").unwrap_err(), SclError::ObjIdEmpty);
    assert_eq!(ascii_to_objid("1 x 3").unwrap_err(), SclError::ObjIdBadComponent);
    assert_eq!(ascii_to_objid("1 40000").unwrap_err(), SclError::ObjIdBadComponent);
    assert_eq!(ascii_to_objid("1.3").unwrap_err(), SclError::ObjIdBadComponent);
    let sixteen = "1 2 3 4 5 6 7 8 9 10 11 12 13 14 15 16";
    assert_eq!(ascii_to_objid(sixteen).unwrap().num_comps, 16);
    let seventeen = "1 2 3 4 5 6 7 8 9 10 11 12 13 14 15 16 17";
    assert_eq!(ascii_to_objid(seventeen).unwrap_err(), SclError::ObjIdTooManyComponents);
    let bad_after_sixteen = "1 2 3 4 5 6 7 8 9 10 11 12 13 14 15 16 x";
    assert_eq!(ascii_to_objid(bad_after_sixteen).unwrap_err(), SclError::ObjIdTooManyComponents);
}

#[test]
fn ipv4_addresses() {
    assert_eq!(parse_ipv4("192.168.0.15"), Some([192, 168, 0, 15]));
    assert_eq!(parse_ipv4("0.0.0.0"), Some([0, 0, 0, 0]));
    assert_eq!(parse_ipv4("255.255.255.255"), Some([255, 255, 255, 255]));
    assert_eq!(parse_ipv4("1.2.3.4"), Some([1, 2, 3, 4]));
}

#[test]
fn ipv4_addresses_that_are_refused() {
    for bad in [
        "", "1", "1.2.3", "1.2.3.4.5", "1.2.3.", ".1.2.3", "1..2.3", "256.1.1.1", "1.2.3.256",
        "01.2.3.4", "1.2.3.04", "1.2.3.4 ", " 1.2.3.4", "1.2.3.a", "1,2,3,4", "1.2.3.1000",
        "+1.2.3.4", "1.2.3.-4", "00.0.0.0",
    ] {
        assert_eq!(parse_ipv4(bad), None, "{:?}", bad);
    }
}

#[test]
fn ipv4_octets_of_every_length() {
    assert_eq!(parse_ipv4("10.0.0.1"), Some([10, 0, 0, 1]));
    assert_eq!(parse_ipv4("172.16.254.3"), Some([172, 16, 254, 3]));
    assert_eq!(parse_ipv4("9.99.199.0"), Some([9, 99, 199, 0]));
    assert_eq!(parse_ipv4("0.10.100.200"), Some([0, 10, 100, 200]));
    assert_eq!(parse_ipv4("08.1.1.1"), None);
}

#[test]
fn flattened_names_grow_step_by_step() {
    let mut flat = String::new();
    assert_eq!(construct_flattened(&mut flat, 71, "A", ""), Ok(()));
    assert_eq!(flat, "A");
    assert_eq!(construct_flattened(&mut flat, 71, "B", "3"), Ok(()));
    assert_eq!(flat, "A$B[3]");
    assert_eq!(construct_flattened(&mut flat, 71, "C", ""), Ok(()));
    assert_eq!(flat, "A$B[3]$C");
    assert_eq!(flattened_parent(&flat), "A$B[3]");
    assert_eq!(flattened_parent("A$B[3]"), "A");
    assert_eq!(flattened_parent("A"), "");
    assert_eq!(flattened_parent(""), "");
    assert_eq!(flattened_parent("$"), "");
    assert_eq!(flattened_parent("é$ü$x"), "é$ü");
}

#[test]
fn a_flattened_name_may_fill_its_room() {
    let mut flat = String::new();
    assert_eq!(construct_flattened(&mut flat, 3, "abc", ""), Ok(()));
    assert_eq!(flat, "abc");
    let mut flat = String::new();
    assert_eq!(construct_flattened(&mut flat, 2, "abc", ""), Err(SclError::FlattenedTooLong));
    assert_eq!(flat, "");
    let mut flat = String::from("a");
    assert_eq!(construct_flattened(&mut flat, 7, "b", "12"), Ok(()));
    assert_eq!(flat, "a$b[12]");
    let mut flat = String::from("a");
    assert_eq!(construct_flattened(&mut flat, 6, "b", "12"), Err(SclError::FlattenedTooLong));
    assert_eq!(flat, "a");
    let mut flat = String::new();
    assert_eq!(construct_flattened(&mut flat, 6, "ab", "12"), Ok(()));
    assert_eq!(flat, "ab[12]");
    let mut flat = String::new();
    assert_eq!(construct_flattened(&mut flat, 5, "ab", "12"), Err(SclError::FlattenedTooLong));
    let mut flat = String::new();
    assert_eq!(construct_flattened(&mut flat, 0, "", ""), Ok(()));
    assert_eq!(flat, "");
}

#[test]
fn a_flattened_name_is_measured_in_bytes() {
    let mut flat = String::new();
    assert_eq!(construct_flattened(&mut flat, 2, "é", ""), Ok(()));
    let mut flat = String::new();
    assert_eq!(construct_flattened(&mut flat, 1, "é", ""), Err(SclError::FlattenedTooLong));
}

#[test]
fn ascii_text_as_hex_digits() {
    assert_eq!(ascii_to_hex("This is an example.").unwrap(), "5468697320697320616e206578616d706c652e");
    assert_eq!(ascii_to_hex("").unwrap(), "");
    assert_eq!(ascii_to_hex("\u{0}\u{7f}\n").unwrap(), "007f0a");
    assert_eq!(ascii_to_hex("caf\u{e9}").unwrap_err(), SclError::NotAscii);
    assert_eq!(ascii_to_hex("\u{80}").unwrap_err(), SclError::NotAscii);
}

#[test]
fn hex_digits_as_text() {
    assert_eq!(hex_to_ascii("54686973206973202061206578616d706c65").unwrap(), "This is  a example");
    assert_eq!(hex_to_ascii("").unwrap(), "");
    assert_eq!(hex_to_ascii("4").unwrap(), "");
    assert_eq!(hex_to_ascii("414").unwrap(), "A");
    assert_eq!(hex_to_ascii("4A4b").unwrap(), "JK");
    assert_eq!(hex_to_ascii("e9").unwrap(), "\u{e9}");
    assert_eq!(hex_to_ascii("+f").unwrap(), "\u{f}");
    assert_eq!(hex_to_ascii("zz").unwrap_err(), SclError::BadHexPair);
    assert_eq!(hex_to_ascii("41 42").unwrap_err(), SclError::BadHexPair);
    assert_eq!(hex_to_ascii("-1").unwrap_err(), SclError::BadHexPair);
    assert_eq!(hex_to_ascii("41zz4").unwrap_err(), SclError::BadHexPair);
}

#[test]
fn hex_and_back() {
    for text in ["", "a", "IED1/LD0$GO$gcb1", "~ \t{}"] {
        assert_eq!(hex_to_ascii(&ascii_to_hex(text).unwrap()).unwrap(), text);
    }
}

#[test]
fn errors_say_what_went_wrong() {
    assert_eq!(SclError::BadMarkup.message(), "the document is no well-formed markup");
    assert_eq!(SclError::Parse(13).message(), "a required attribute is missing");
    assert_eq!(SclError::Parse(4).message(), "an element occurs twice that may occur only once");
    assert_eq!(SclError::Parse(77).message(), "the walk over the document failed");
    assert_eq!(scl61850::error::status_message(0), "no error");
    assert_eq!(SclError::HexTooLong.message(), "too many hexadecimal digits");
    assert_eq!(SclError::HexOddDigits.message(), "an odd count of hexadecimal digits");
}

#[test]
fn numbers_are_read_as_the_standard_library_reads_them() {
    let n = |s: &str| read_number_or(&Some(s.to_string()), 9);
    assert_eq!(read_number_or(&None, 9), Some(9));
    assert_eq!(n("+7"), Some(7));
    assert_eq!(n("0007"), Some(7));
    assert_eq!(n(" 7\t"), Some(7));
    assert_eq!(n("\u{2003}7\u{3000}"), Some(7));
    assert_eq!(n("4294967295"), Some(u32::MAX));
    assert_eq!(n("4294967296"), None);
    assert_eq!(n("99999999999999999999"), None);
    assert_eq!(n("-7"), None);
    assert_eq!(n("-0"), None);
    assert_eq!(n("+"), None);
    assert_eq!(n("++7"), None);
    assert_eq!(n(""), None);
    assert_eq!(n("   "), None);
    assert_eq!(n("1e3"), None);
    assert_eq!(n("1_000"), None);
    assert_eq!(n("0x10"), None);
    assert_eq!(n("7 7"), None);
    assert_eq!(n("\u{ff17}"), None);
    assert_eq!(n("\u{200b}7"), None);
    assert_eq!(read_number_or_else(&Some("x".to_string()), 9), 9);
    assert_eq!(read_number_or_else(&Some("3".to_string()), 9), 3);
    assert_eq!(read_number_or_else(&None, 9), 9);
}

#[test]
fn hexadecimal_numbers_are_read_as_the_standard_library_reads_them() {
    assert_eq!(read_bounded_hex("+1F", 0xffff), Some(31));
    assert_eq!(read_bounded_hex(" 1f ", 0xffff), Some(31));
    assert_eq!(read_bounded_hex("ffff", 0xffff), Some(0xffff));
    assert_eq!(read_bounded_hex("10000", 0xffff), None);
    assert_eq!(read_bounded_hex("ffffffff", u32::MAX), Some(u32::MAX));
    assert_eq!(read_bounded_hex("100000000", u32::MAX), None);
    assert_eq!(read_bounded_hex("-1", 7), None);
    assert_eq!(read_bounded_hex("1G", 0xffff), None);
    assert_eq!(read_bounded_hex("", 7), None);
    assert_eq!(read_bounded_hex("0", 0), Some(0));
    assert_eq!(read_bounded_hex("Ab", 0xfff), Some(0xab));
}

#[test]
fn object_identifier_components_fit_sixteen_bits() {
    assert_eq!(ascii_to_objid("32767 -32768").unwrap().comps[..2], [32767, -32768]);
    assert_eq!(ascii_to_objid("32768").unwrap_err(), SclError::ObjIdBadComponent);
    assert_eq!(ascii_to_objid("-32769").unwrap_err(), SclError::ObjIdBadComponent);
    assert_eq!(ascii_to_objid("-").unwrap_err(), SclError::ObjIdBadComponent);
    assert_eq!(ascii_to_objid("\"\"").unwrap_err(), SclError::ObjIdBadComponent);
    assert_eq!(ascii_to_objid("\"\"7\"\"").unwrap().comps[0], 7);
    assert_eq!(ascii_to_objid("\"7 8\"").unwrap().comps[..2], [7, 8]);
    assert_eq!(ascii_to_objid("1\u{2003}2\u{a0}3").unwrap().num_comps, 3);
    assert_eq!(ascii_to_objid("1\u{200b}2").unwrap_err(), SclError::ObjIdBadComponent);
}

#[test]
fn white_space_is_what_unicode_says() {
    assert_eq!(trimmed(" \t\r\n\u{b}\u{c}x y\u{85}\u{a0}\u{1680}\u{2000}\u{200a}\u{2028}\u{2029}\u{202f}\u{205f}\u{3000}"), "x y");
    assert_eq!(trimmed("\u{200b}x\u{feff}"), "\u{200b}x\u{feff}");
    assert_eq!(trimmed("\u{180e}x"), "\u{180e}x");
    assert_eq!(trimmed("\u{1f}x\u{1c}"), "\u{1f}x\u{1c}");
    assert_eq!(trimmed(""), "");
    assert_eq!(trimmed(" \u{3000} "), "");
    assert!(attr_spells(&Some("\u{2003}TrUe ".to_string()), "true"));
    assert!(!attr_spells(&Some("true".to_string()), "TRUE "));
    assert!(!attr_spells(&None, ""));
    assert!(attr_spells(&Some("  ".to_string()), ""));
}
