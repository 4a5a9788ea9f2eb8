use contract_mcp::address::Address;
use contract_mcp::hexadecimal::{from_prefixed_hex, to_prefixed_hex};
use contract_mcp::json::{JsonNumber, JsonValue};
use contract_mcp::soltype::SolType;
use contract_mcp::text::{
    chars_contain, decimal_string, decimal_string_wide, from_chars, join, replace_all, str_eq,
    to_chars, trim,
};
use contract_mcp::word::{parse_number, U256};

#[test]
fn trim_takes_off_unicode_white_space() {
    assert_eq!(trim("  a b \t\n"), "a b");
    assert_eq!(trim("\u{2003}x\u{3000}"), "x");
    assert_eq!(trim("   "), "");
    assert_eq!(trim(""), "");
    assert_eq!(trim("x"), "x");
    // As the standard library trims.
    for s in ["\u{85}a\u{a0}", "\u{1680}b\u{2028}", "\u{200b}c", "\u{feff}d"] {
        assert_eq!(trim(s), s.trim());
    }
}

#[test]
fn search_finds_every_position() {
    let hay = to_chars("abcabc");
    assert!(chars_contain(&hay, &to_chars("")));
    assert!(chars_contain(&hay, &to_chars("abc")));
    assert!(chars_contain(&hay, &to_chars("cab")));
    assert!(chars_contain(&hay, &to_chars("bc")));
    assert!(chars_contain(&hay, &to_chars("abcabc")));
    assert!(!chars_contain(&hay, &to_chars("abcabca")));
    assert!(!chars_contain(&hay, &to_chars("ac")));
    assert!(chars_contain(&to_chars(""), &to_chars("")));
    assert!(!chars_contain(&to_chars(""), &to_chars("a")));
}

#[test]
fn characters_and_strings_convert_both_ways() {
    let v = to_chars("héllo");
    assert_eq!(v.len(), 5);
    assert_eq!(from_chars(&v, 0, 5), "héllo");
    assert_eq!(from_chars(&v, 1, 3), "él");
    assert_eq!(from_chars(&v, 2, 2), "");
    assert!(str_eq("abc", "abc"));
    assert!(!str_eq("abc", "abd"));
    assert!(!str_eq("abc", "ab"));
}

#[test]
fn decimal_digits_of_numbers() {
    assert_eq!(decimal_string(0), "0");
    assert_eq!(decimal_string(7), "7");
    assert_eq!(decimal_string(10), "10");
    assert_eq!(decimal_string(21000), "21000");
    assert_eq!(decimal_string(u64::MAX), "18446744073709551615");
    assert_eq!(
        decimal_string_wide(u128::MAX),
        "340282366920938463463374607431768211455"
    );
}

#[test]
fn join_puts_the_separator_between() {
    let none: Vec<String> = Vec::new();
    assert_eq!(join(&none, ", "), "");
    assert_eq!(join(&vec!["a".to_string()], ", "), "a");
    assert_eq!(
        join(&vec!["a".to_string(), "b".to_string(), "c".to_string()], ", "),
        "a, b, c"
    );
}

#[test]
fn replace_all_replaces_from_the_left() {
    assert_eq!(replace_all("a/demo/demo", "/demo", "/KEY"), "a/KEY/KEY");
    assert_eq!(replace_all("aaa", "aa", "b"), "ba");
    assert_eq!(replace_all("abc", "x", "y"), "abc");
    assert_eq!(replace_all("", "x", "y"), "");
    assert_eq!(replace_all("xx", "x", ""), "");
    assert_eq!(replace_all("demo", "demo", "demodemo"), "demodemo");
}

#[test]
fn bytes_are_written_in_lower_case_hexadecimal() {
    assert_eq!(to_prefixed_hex(&[]), "0x");
    assert_eq!(to_prefixed_hex(&[0x00, 0x0f, 0xa0, 0xff]), "0x000fa0ff");
}

#[test]
fn hexadecimal_is_read_in_either_case_and_without_its_prefixes() {
    assert_eq!(from_prefixed_hex("0x000fA0Ff"), Some(vec![0x00, 0x0f, 0xa0, 0xff]));
    assert_eq!(from_prefixed_hex("000fa0ff"), Some(vec![0x00, 0x0f, 0xa0, 0xff]));
    assert_eq!(from_prefixed_hex("0x0x12"), Some(vec![0x12]));
    assert_eq!(from_prefixed_hex("0x"), Some(vec![]));
    assert_eq!(from_prefixed_hex(""), Some(vec![]));
    assert_eq!(from_prefixed_hex("0x1"), None);
    assert_eq!(from_prefixed_hex("0xzz"), None);
    assert_eq!(from_prefixed_hex("0X12"), None);
    assert_eq!(from_prefixed_hex("éé"), None);
}

#[test]
fn numbers_are_read_from_text() {
    assert_eq!(parse_number("0").unwrap().limbs, [0, 0, 0, 0]);
    assert_eq!(parse_number("255").unwrap().limbs, [255, 0, 0, 0]);
    assert_eq!(parse_number("0xff").unwrap().limbs, [255, 0, 0, 0]);
    assert_eq!(parse_number("0xFF").unwrap().limbs, [255, 0, 0, 0]);
    assert_eq!(parse_number("").unwrap().limbs, [0, 0, 0, 0]);
    assert_eq!(
        parse_number("18446744073709551616").unwrap().limbs,
        [0, 1, 0, 0]
    );
    assert!(parse_number("-1").is_none());
    assert!(parse_number("1.5").is_none());
    assert!(parse_number("0xg").is_none());
    assert!(parse_number("١٢").is_none());
}

#[test]
fn numbers_are_written_in_decimal() {
    assert_eq!(U256::from_u64(0).to_decimal(), "0");
    assert_eq!(U256::from_u64(1000).to_decimal(), "1000");
    assert_eq!(U256 { limbs: [0, 1, 0, 0] }.to_decimal(), "18446744073709551616");
    assert_eq!(
        U256 { limbs: [u64::MAX; 4] }.to_decimal(),
        "115792089237316195423570985008687907853269984665640564039457584007913129639935"
    );
}

#[test]
fn numbers_know_their_range() {
    assert!(U256::from_u64(0).is_zero());
    assert!(!U256 { limbs: [0, 0, 1, 0] }.is_zero());
    assert_eq!(U256::from_u64(5).to_u128(), Some(5));
    assert_eq!(U256 { limbs: [1, 2, 0, 0] }.to_u128(), Some((2u128 << 64) + 1));
    assert_eq!(U256 { limbs: [0, 0, 1, 0] }.to_u128(), None);
    let half = U256 { limbs: [0, 0, 0, 1 << 63] };
    assert!(half.fits_negative());
    assert!(!half.fits_positive());
    let above = U256 { limbs: [1, 0, 0, 1 << 63] };
    assert!(!above.fits_negative());
    let below = U256 { limbs: [u64::MAX, u64::MAX, u64::MAX, (1 << 63) - 1] };
    assert!(below.fits_positive());
    assert!(below.fits_negative());
}

#[test]
fn addresses_are_read_and_written() {
    let a = Address::parse("0x52908400098527886E0F7030069857D2E4169EE7").unwrap();
    assert_eq!(a.bytes[0], 0x52);
    assert_eq!(a.to_hex(), "0x52908400098527886e0f7030069857d2e4169ee7");
    assert_eq!(a.to_checksum(), "0x52908400098527886E0F7030069857D2E4169EE7");
    let b = Address::parse("de709f2102306220921060314715629080e2fb77").unwrap();
    assert_eq!(b.to_checksum(), "0xde709f2102306220921060314715629080e2fb77");
    let c = Address::parse("0x5aaeb6053f3e94c9b9a09f33669435e7ef1beaed").unwrap();
    assert_eq!(c.to_checksum(), "0x5aAeb6053F3E94C9b9A09f33669435E7Ef1BeAed");
    assert!(Address::parse("0x123").is_err());
    assert!(Address::parse("").is_err());
    assert!(Address::parse("0xzz908400098527886E0F7030069857D2E4169EE7").is_err());
}

#[test]
fn signing_keys_give_their_address() {
    let a = Address::of_signing_key(
        "0000000000000000000000000000000000000000000000000000000000000001",
    )
    .unwrap();
    assert_eq!(a.to_checksum(), "0x7E5F4552091A69125d5DfCb7b8C2659029395Bdf");
    assert!(Address::of_signing_key("not a key").is_err());
    assert!(Address::of_signing_key("").is_err());
}

#[test]
fn type_names_are_read() {
    assert!(matches!(SolType::parse("address"), Some(SolType::Address)));
    assert!(matches!(SolType::parse("bool"), Some(SolType::Bool)));
    assert!(matches!(SolType::parse("string"), Some(SolType::Text)));
    assert!(matches!(SolType::parse("bytes"), Some(SolType::Bytes)));
    assert!(matches!(SolType::parse("uint"), Some(SolType::Uint(256))));
    assert!(matches!(SolType::parse("int"), Some(SolType::Int(256))));
    assert!(matches!(SolType::parse("uint8"), Some(SolType::Uint(8))));
    assert!(matches!(SolType::parse("uint256"), Some(SolType::Uint(256))));
    assert!(matches!(SolType::parse("int128"), Some(SolType::Int(128))));
    assert!(matches!(SolType::parse("bytes1"), Some(SolType::FixedBytes(1))));
    assert!(matches!(SolType::parse("bytes32"), Some(SolType::FixedBytes(32))));
    match SolType::parse("uint256[]") {
        Some(SolType::Array(inner)) => assert!(matches!(*inner, SolType::Uint(256))),
        _ => panic!("an array of integers"),
    }
    match SolType::parse("bytes[][]") {
        Some(SolType::Array(outer)) => match *outer {
            SolType::Array(inner) => assert!(matches!(*inner, SolType::Bytes)),
            _ => panic!("an array of arrays"),
        },
        _ => panic!("an array of arrays"),
    }
}

#[test]
fn other_type_names_are_not_converted() {
    for name in [
        "", "uint7", "uint0", "uint264", "uint08", "uint2560", "int257", "bytes0", "bytes33",
        "bytes032", "tuple", "uint256[3]", "function", "Address", "uint256 ", "[]", "fixed128x18",
    ] {
        assert!(SolType::parse(name).is_none());
    }
}

#[test]
fn values_are_written_as_compact_text() {
    assert_eq!(JsonValue::Null.to_text(), "null");
    assert_eq!(JsonValue::Bool(true).to_text(), "true");
    assert_eq!(JsonValue::Bool(false).to_text(), "false");
    assert_eq!(JsonValue::Number(JsonNumber::Unsigned(42)).to_text(), "42");
    assert_eq!(JsonValue::Number(JsonNumber::Negative(-42)).to_text(), "-42");
    assert_eq!(
        JsonValue::Number(JsonNumber::Negative(i64::MIN)).to_text(),
        "-9223372036854775808"
    );
    assert_eq!(JsonValue::Number(JsonNumber::Real("1.5".to_string())).to_text(), "1.5");
    assert_eq!(JsonValue::Text("a\"b\\c\n\t\r\u{8}\u{c}\u{1}\u{1f}é".to_string()).to_text(),
        "\"a\\\"b\\\\c\\n\\t\\r\\b\\f\\u0001\\u001fé\"");
    assert_eq!(JsonValue::Array(vec![]).to_text(), "[]");
    assert_eq!(
        JsonValue::Array(vec![JsonValue::Null, JsonValue::Bool(true)]).to_text(),
        "[null,true]"
    );
    assert_eq!(JsonValue::Object(vec![]).to_text(), "{}");
    assert_eq!(
        JsonValue::Object(vec![
            ("a".to_string(), JsonValue::Number(JsonNumber::Unsigned(1))),
            ("b".to_string(), JsonValue::Array(vec![JsonValue::Text("x".to_string())])),
        ])
        .to_text(),
        "{\"a\":1,\"b\":[\"x\"]}"
    );
}

#[test]
fn values_are_written_as_serde_json_writes_them() {
    let ours = JsonValue::Object(vec![
        ("k\"ey".to_string(), JsonValue::Text("line\nbreak \u{7f} \u{0}".to_string())),
        ("n".to_string(), JsonValue::Number(JsonNumber::Negative(-7))),
    ]);
    let mut map = serde_json::Map::new();
    map.insert(
        "k\"ey".to_string(),
        serde_json::Value::String("line\nbreak \u{7f} \u{0}".to_string()),
    );
    map.insert("n".to_string(), serde_json::Value::from(-7i64));
    assert_eq!(ours.to_text(), serde_json::to_string(&serde_json::Value::Object(map)).unwrap());
}

#[test]
fn fields_are_found_by_name() {
    let v = JsonValue::Object(vec![
        ("a".to_string(), JsonValue::Bool(true)),
        ("b".to_string(), JsonValue::Null),
        ("a".to_string(), JsonValue::Bool(false)),
    ]);
    assert!(matches!(v.get("a"), Some(JsonValue::Bool(true))));
    assert!(matches!(v.get("b"), Some(JsonValue::Null)));
    assert!(v.get("c").is_none());
    assert!(JsonValue::Null.get("a").is_none());
    assert_eq!(JsonValue::Text("x".to_string()).as_str(), Some("x"));
    assert_eq!(JsonValue::Null.as_str(), None);
    assert_eq!(JsonValue::Bool(true).as_bool(), Some(true));
    assert_eq!(v.duplicate().to_text(), v.to_text());
}
