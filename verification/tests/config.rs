use duangler::config::{no_tls_from, parse_u8};

#[test]
fn tls_is_disabled_only_by_the_value_one() {
    assert!(!no_tls_from(None));
    assert!(no_tls_from(Some("1")));
    assert!(no_tls_from(Some("+1")));
    assert!(no_tls_from(Some("001")));
    assert!(!no_tls_from(Some("0")));
    assert!(!no_tls_from(Some("2")));
    assert!(!no_tls_from(Some("257")));
    assert!(!no_tls_from(Some(" 1")));
    assert!(!no_tls_from(Some("true")));
}

#[test]
fn u8_is_parsed_as_std_does() {
    for s in ["0", "7", "255", "+12", "0010", "256", "1000", "-1", "-0", "", "+", "1 ", "1a", "٣"] {
        assert_eq!(parse_u8(s), s.parse::<u8>().ok(), "{:?}", s);
    }
}
