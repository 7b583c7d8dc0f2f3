use petompp_auth::text::{format_i64, format_u32, hex_encode, parse_i64, parse_u32, str_eq};

#[test]
fn decimal_round_trips() {
    for n in [0u32, 1, 9, 10, 99, 100, 4294967295] {
        assert_eq!(format_u32(n), n.to_string());
        assert_eq!(parse_u32(&n.to_string()), Some(n));
    }
    for n in [0i64, -1, 1, -10, i64::MIN, i64::MAX, 1_700_001_800] {
        assert_eq!(format_i64(n), n.to_string());
        assert_eq!(parse_i64(&n.to_string()), Some(n));
    }
}

#[test]
fn decimal_parse_edges() {
    assert_eq!(parse_u32(""), None);
    assert_eq!(parse_u32("+"), None);
    assert_eq!(parse_u32("+7"), Some(7));
    assert_eq!(parse_u32("-7"), None);
    assert_eq!(parse_u32("007"), Some(7));
    assert_eq!(parse_u32("4294967296"), None);
    assert_eq!(parse_u32("12a"), None);
    assert_eq!(parse_i64("-9223372036854775809"), None);
    assert_eq!(parse_i64("9223372036854775808"), None);
    assert_eq!(parse_i64("-"), None);
    assert_eq!(parse_i64("+5"), Some(5));
    assert_eq!(parse_i64("99999999999999999999999"), None);
}

#[test]
fn hex_forms() {
    assert_eq!(hex_encode(&[0x0a, 0x14, 0x1e, 0xff, 0x00], true), "0a141eff00");
    assert_eq!(hex_encode(&[0x0a, 0x14, 0x1e, 0xff, 0x00], false), "a141eff0");
    assert_eq!(hex_encode(&[], true), "");
}

#[test]
fn string_equality() {
    assert!(str_eq("abc", "abc"));
    assert!(!str_eq("abc", "abd"));
    assert!(!str_eq("abc", "ab"));
    assert!(str_eq("", ""));
}
