use design_patterns::text::{append_decimal, append_digits, append_quoted, join, same_text};
use design_patterns::transcript::Transcript;

#[test]
fn same_text_compares_the_whole_text() {
    assert!(same_text("", ""));
    assert!(same_text("GET", "GET"));
    assert!(!same_text("GET", "GE"));
    assert!(!same_text("GE", "GET"));
    assert!(!same_text("GET", "get"));
    assert!(!same_text("", " "));
    assert!(same_text("grüß", "grüß"));
    assert!(!same_text("grüß", "gruß"));
}

#[test]
fn digits_of_numbers() {
    for (n, text) in [
        (0u64, "0"),
        (7, "7"),
        (9, "9"),
        (10, "10"),
        (42, "42"),
        (100, "100"),
        (1234567890, "1234567890"),
        (u64::MAX, "18446744073709551615"),
    ] {
        let mut out = String::new();
        append_digits(&mut out, n);
        assert_eq!(out, text);
        assert_eq!(out, n.to_string());
    }
}

#[test]
fn decimal_of_numbers() {
    for n in [0i64, 1, -1, 9, -9, 10, -10, 99, 101, -4096, i64::MAX, i64::MIN, i64::MIN + 1] {
        let mut out = "n=".to_string();
        append_decimal(&mut out, n);
        assert_eq!(out, format!("n={}", n));
    }
    let mut out = String::new();
    append_decimal(&mut out, -120);
    assert_eq!(out, "-120");
}

#[test]
fn quoted_text() {
    let mut out = "<".to_string();
    append_quoted(&mut out, "green");
    assert_eq!(out, "<\"green\"");
    let mut out = String::new();
    append_quoted(&mut out, "tab\there 'single' \"double\"");
    assert_eq!(out, "\"tab\\there 'single' \\\"double\\\"\"");
}

#[test]
fn joined_parts() {
    let parts = |texts: &[&str]| -> Vec<String> { texts.iter().map(|t| t.to_string()).collect() };
    assert_eq!(join(&parts(&[]), ", "), "");
    assert_eq!(join(&parts(&["a"]), ", "), "a");
    assert_eq!(join(&parts(&["a", "b", "c"]), ", "), "a, b, c");
    assert_eq!(join(&parts(&["a", "", "c"]), "/"), "a//c");
    assert_eq!(join(&parts(&["", "x"]), ""), "x");
}

#[test]
fn transcript_keeps_lines_in_order() {
    let mut out = Transcript::new();
    assert_eq!(out.len(), 0);
    assert!(out.lines().is_empty());
    out.record("one".to_string());
    out.record(String::new());
    out.record("three".to_string());
    assert_eq!(out.len(), 3);
    assert_eq!(out.line(0), "one");
    assert_eq!(out.line(1), "");
    assert_eq!(out.line(2), "three");
    assert_eq!(out.lines(), &vec!["one".to_string(), String::new(), "three".to_string()]);
}
