use wastebin_server::text::{parse_u32, starts_with, str_equals};

#[test]
fn parse_u32_matches_std() {
    let inputs = [
        "", "+", "-", "0", "7", "+7", "-7", "007", "42", " 42", "42 ", "4294967295", "4294967296",
        "99999999999999999999", "12a", "+-1", "++1", "١٢",
    ];
    for s in inputs {
        assert_eq!(parse_u32(s), s.parse::<u32>().ok(), "input {s:?}");
    }
}

#[test]
fn string_helpers() {
    assert!(str_equals("abc", "abc"));
    assert!(!str_equals("abc", "abd"));
    assert!(!str_equals("abc", "ab"));
    assert!(starts_with("/s/abc", "/s/"));
    assert!(!starts_with("/s", "/s/"));
    assert!(starts_with("ä/x", "ä"));
}
