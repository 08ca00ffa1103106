use amqp_examples::text::{body_i64, body_text, body_u64, i64_body, u64_body};

#[test]
fn body_text_valid_and_invalid() {
    assert_eq!(body_text(b"hello"), Some(String::from("hello")));
    assert_eq!(body_text("h\u{e9}llo".as_bytes()), Some(String::from("h\u{e9}llo")));
    assert_eq!(body_text(&[0x68, 0xff, 0x69]), None);
    assert_eq!(body_text(&[]), Some(String::new()));
}

#[test]
fn body_i64_parses_trimmed_numbers() {
    assert_eq!(body_i64(b"42"), Some(42));
    assert_eq!(body_i64(b"  42\n"), Some(42));
    assert_eq!(body_i64("\u{a0}7\u{3000}".as_bytes()), Some(7));
    assert_eq!(body_i64(b"-7"), Some(-7));
    assert_eq!(body_i64(b"+5"), Some(5));
    assert_eq!(body_i64(b"-9223372036854775808"), Some(i64::MIN));
    assert_eq!(body_i64(b"9223372036854775807"), Some(i64::MAX));
}

#[test]
fn body_i64_rejects_other_text() {
    assert_eq!(body_i64(b"9223372036854775808"), None);
    assert_eq!(body_i64(b""), None);
    assert_eq!(body_i64(b"   "), None);
    assert_eq!(body_i64(b"-"), None);
    assert_eq!(body_i64(b"+"), None);
    assert_eq!(body_i64(b"5a"), None);
    assert_eq!(body_i64(b"4 2"), None);
    assert_eq!(body_i64(&[0xff]), None);
}

#[test]
fn body_u64_parses_and_rejects() {
    assert_eq!(body_u64(b" 18446744073709551615 "), Some(u64::MAX));
    assert_eq!(body_u64(b"18446744073709551616"), None);
    assert_eq!(body_u64(b"-1"), None);
    assert_eq!(body_u64(b"+3"), Some(3));
    assert_eq!(body_u64(b"007"), Some(7));
}

#[test]
fn decimal_bodies() {
    assert_eq!(i64_body(-12), b"-12".to_vec());
    assert_eq!(i64_body(0), b"0".to_vec());
    assert_eq!(i64_body(i64::MIN), b"-9223372036854775808".to_vec());
    assert_eq!(u64_body(1234567890), b"1234567890".to_vec());
    assert_eq!(u64_body(u64::MAX), b"18446744073709551615".to_vec());
}

#[test]
fn decimal_bodies_parse_back() {
    for n in [0u64, 1, 9, 10, 99, 12345, u64::MAX] {
        assert_eq!(body_u64(&u64_body(n)), Some(n));
    }
    for n in [i64::MIN, -1, 0, 1, i64::MAX] {
        assert_eq!(body_i64(&i64_body(n)), Some(n));
    }
}
