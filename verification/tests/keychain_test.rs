use otpbar::decimal::{format_i64, format_u64, parse_bool, parse_i64, parse_u64};
use otpbar::keychain::{
    KeychainManager, ACCESS_TOKEN_ITEM, REFRESH_TOKEN_ITEM, SERVICE_NAME, TOKEN_EXPIRY_ITEM,
};

#[test]
fn item_names() {
    assert_eq!(SERVICE_NAME, "otpbar");
    assert_eq!(REFRESH_TOKEN_ITEM, "gmail-refresh-token");
    assert_eq!(ACCESS_TOKEN_ITEM, "gmail-access-token");
    assert_eq!(TOKEN_EXPIRY_ITEM, "gmail-token-expiry");
}

#[test]
fn record_set_and_get() {
    let mut k = KeychainManager::new();
    assert_eq!(k.get_refresh_token(), None);
    assert_eq!(k.get_access_token(), None);
    assert_eq!(k.get_token_expiry(), None);
    k.set_refresh_token("r");
    k.set_access_token("a");
    k.set_token_expiry(1_700_000_000);
    assert_eq!(k.get_refresh_token(), Some("r".to_string()));
    assert_eq!(k.get_access_token(), Some("a".to_string()));
    assert_eq!(k.get_token_expiry(), Some(1_700_000_000));
    assert_eq!(k.token_expiry, Some("1700000000".to_string()));
    k.delete_all_credentials();
    assert_eq!(k, KeychainManager::new());
}

#[test]
fn expiry_round_trips() {
    let mut k = KeychainManager::new();
    for e in [0, 1, -1, 9, 10, 60, -60, 1_700_000_000, i64::MAX, i64::MIN, i64::MIN + 1] {
        k.set_token_expiry(e);
        assert_eq!(k.get_token_expiry(), Some(e));
    }
}

#[test]
fn unreadable_expiry_counts_as_absent() {
    let mut k = KeychainManager::new();
    for bad in ["", "abc", "12a", " 12", "12 ", "1.5", "+", "-", "--1", "9223372036854775808"] {
        k.token_expiry = Some(bad.to_string());
        assert_eq!(k.get_token_expiry(), None);
    }
    k.token_expiry = Some("+42".to_string());
    assert_eq!(k.get_token_expiry(), Some(42));
    k.token_expiry = Some("-9223372036854775808".to_string());
    assert_eq!(k.get_token_expiry(), Some(i64::MIN));
    k.token_expiry = Some("007".to_string());
    assert_eq!(k.get_token_expiry(), Some(7));
}

#[test]
fn numerals_are_written_as_std_writes_them() {
    for n in [0u64, 7, 10, 99, 100, 8234, 65535, u64::MAX] {
        assert_eq!(format_u64(n), n.to_string());
    }
    for n in [0i64, 5, -5, 10, -10, 1234567890, i64::MAX, i64::MIN] {
        assert_eq!(format_i64(n), n.to_string());
    }
}

#[test]
fn numerals_are_read_as_std_reads_them() {
    let cases = [
        "0", "8000", "+8000", "-8000", "-0", "+0", "", "+", "-", "18446744073709551615",
        "18446744073709551616", "99999999999999999999999", "0000012", "12x", "x12", "1 2", "１２",
        "9223372036854775807", "9223372036854775808", "-9223372036854775808",
        "-9223372036854775809", "+-1", "-+1", "++1",
    ];
    for text in cases {
        assert_eq!(parse_u64(text), text.parse::<u64>().ok(), "u64 {:?}", text);
        assert_eq!(parse_i64(text), text.parse::<i64>().ok(), "i64 {:?}", text);
    }
}

#[test]
fn flags_are_read_as_std_reads_them() {
    for text in ["true", "false", "True", "TRUE", "1", "0", "", "yes", " true", "truex"] {
        assert_eq!(parse_bool(text), text.parse::<bool>().ok(), "bool {:?}", text);
    }
}
