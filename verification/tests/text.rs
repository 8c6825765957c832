use chatgpt_client::text::{decimal_string, text_eq};

#[test]
fn decimal_string_writes_plain_numerals() {
    assert_eq!(decimal_string(0), "0");
    assert_eq!(decimal_string(7), "7");
    assert_eq!(decimal_string(10), "10");
    assert_eq!(decimal_string(1086), "1086");
    assert_eq!(decimal_string(u64::MAX), "18446744073709551615");
}

#[test]
fn text_eq_compares_characters() {
    assert!(text_eq("proxy", "proxy"));
    assert!(!text_eq("proxy", "Proxy"));
    assert!(!text_eq("proxy", "proxy "));
    assert!(text_eq("", ""));
}
