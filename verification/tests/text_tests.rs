use pop_support::text::{format_u64, starts_with, str_eq, token, trim};

#[test]
fn trim_removes_surrounding_whitespace() {
    assert_eq!(trim("  a b \n"), "a b");
    assert_eq!(trim("System76\n"), "System76");
    assert_eq!(trim("\t\r\n x \t"), "x");
}

#[test]
fn trim_of_blank_input_is_empty() {
    assert_eq!(trim(""), "");
    assert_eq!(trim("   \n\t"), "");
}

#[test]
fn trim_keeps_inner_whitespace() {
    assert_eq!(trim(" Pop!_OS 22.04 LTS "), "Pop!_OS 22.04 LTS");
}

#[test]
fn str_eq_compares_contents() {
    assert!(str_eq("abc", "abc"));
    assert!(!str_eq("abc", "abd"));
    assert!(!str_eq("abc", "abcd"));
    assert!(str_eq("", ""));
}

#[test]
fn starts_with_checks_prefix() {
    assert!(starts_with("PRETTY_NAME=x", "PRETTY_NAME="));
    assert!(!starts_with("PRETTY=x", "PRETTY_NAME="));
    assert!(!starts_with("PR", "PRETTY_NAME="));
    assert!(starts_with("anything", ""));
}

#[test]
fn token_takes_first_whitespace_delimited_word() {
    assert_eq!(token("#1 SMP PREEMPT_DYNAMIC"), "#1");
    assert_eq!(token("  lead and trail  "), "lead");
    assert_eq!(token("single"), "single");
    assert_eq!(token("   "), "");
    assert_eq!(token(""), "");
}

#[test]
fn format_u64_renders_decimal() {
    assert_eq!(format_u64(0), "0");
    assert_eq!(format_u64(7), "7");
    assert_eq!(format_u64(10), "10");
    assert_eq!(format_u64(1234567890), "1234567890");
    assert_eq!(format_u64(u64::MAX), "18446744073709551615");
}
