//! Texts, bytes, ranges and control definitions.

use mayara::bytes::{
    divide, get_be16, get_be32, get_le16, get_le32, get_le64, low_u16, low_u8, push_be16,
    push_le16, push_le32, to_signed16, to_signed32, to_unsigned32,
};
use mayara::control::{new_auto, new_list, new_numeric, new_string, read_only, Choices};
use mayara::radar::{ControlId, Power};
use mayara::range::Ranges;
use mayara::text::{
    c_string, c_wide_string, find, has_text, push_decimal, push_hex, push_signed, starts_with,
    trim,
};

#[test]
fn texts_end_at_a_zero() {
    assert_eq!(c_string(b"abc\0def"), Some("abc"));
    assert_eq!(c_string(b"abc"), Some("abc"));
    assert_eq!(c_string(b"\xff\0"), None);
    let wide: Vec<u8> = "h\u{e9}\u{1f6a2}\0x"
        .encode_utf16()
        .flat_map(|u| u.to_le_bytes())
        .collect();
    assert_eq!(c_wide_string(&wide), "h\u{e9}\u{1f6a2}");
}

#[test]
fn texts_are_searched() {
    assert!(has_text("DRS4D-NXT", "NXT"));
    assert!(!has_text("DRS4D", "NXT"));
    assert!(has_text("", ""));
    assert!(starts_with("FAR3000", "FAR"));
    assert!(!starts_with("FA", "FAR"));
    let chars: Vec<char> = "abcabc".chars().collect();
    assert_eq!(find(&chars, &['b', 'c']), Some(1));
    assert_eq!(find(&chars, &[]), Some(0));
    assert_eq!(find(&chars, &['c', 'b']), None);
    assert_eq!(trim(" \t a b \r\n"), "a b");
}

#[test]
fn numbers_are_written() {
    let mut s = String::new();
    push_decimal(&mut s, u64::MAX);
    push_signed(&mut s, i32::MIN);
    push_hex(&mut s, 0xaf);
    push_hex(&mut s, 0x5);
    assert_eq!(s, "18446744073709551615-2147483648AF5");
}

#[test]
fn words_are_read_and_written() {
    let data = [1, 2, 3, 4, 5, 6, 7, 8];
    assert_eq!(get_le16(&data, 1), 0x0302);
    assert_eq!(get_be16(&data, 1), 0x0203);
    assert_eq!(get_le32(&data, 1), 0x05040302);
    assert_eq!(get_be32(&data, 1), 0x02030405);
    assert_eq!(get_le64(&data, 0), 0x0807060504030201);
    assert_eq!(to_signed16(0xffff), -1);
    assert_eq!(to_signed32(0x8000_0000), i32::MIN);
    assert_eq!(to_unsigned32(-2), 0xffff_fffe);
    assert_eq!(low_u16(-1), 0xffff);
    assert_eq!(low_u8(0x1234), 0x34);
    assert_eq!(divide(-7, 2), -3);
    let mut out = Vec::new();
    push_le16(&mut out, 0x0102);
    push_be16(&mut out, 0x0102);
    push_le32(&mut out, 0x01020304);
    assert_eq!(out, vec![2, 1, 1, 2, 4, 3, 2, 1]);
}

#[test]
fn ranges_are_sorted_without_repeats() {
    let ranges = Ranges::new_by_distance(&[500, 100, 500, 300, 100]);
    let distances: Vec<i32> = ranges.all.iter().map(|r| r.distance()).collect();
    assert_eq!(distances, vec![100, 300, 500]);
    assert!(Ranges::empty().all.is_empty());
    assert!(Ranges::new_by_distance(&[]).all.is_empty());
}

#[test]
fn controls_are_defined() {
    assert!(!new_string(ControlId::UserName).read_only);
    assert!(read_only(new_string(ControlId::ModelName)).read_only);
    assert_eq!(new_numeric(ControlId::Sea, 0, 100).id, ControlId::Sea);
    assert_ne!(new_auto(ControlId::Gain, 0, 100), new_numeric(ControlId::Gain, 0, 100));
    assert_eq!(new_list(ControlId::Doppler, Choices::OffOn).id, ControlId::Doppler);
    assert_eq!(Choices::OffTargetRain.names(), vec!["Off", "Target", "Rain"]);
    assert_eq!(Power::Transmit.control_value(), 2);
}
