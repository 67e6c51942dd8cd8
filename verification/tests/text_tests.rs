use lib::text::{is_blank, is_whitespace, push_decimal, push_text, text_eq};

#[test]
fn blank_means_only_whitespace() {
    assert!(is_blank(""));
    assert!(is_blank(" \t\n\u{3000}"));
    assert!(!is_blank(" a "));
    assert!(is_whitespace('\u{a0}'));
    assert!(!is_whitespace('x'));
}

#[test]
fn text_helpers_build_strings() {
    let mut s = String::from("n=");
    push_decimal(&mut s, 1024);
    push_text(&mut s, "!");
    assert_eq!(s, "n=1024!");
    let mut z = String::new();
    push_decimal(&mut z, 0);
    assert_eq!(z, "0");
    assert!(text_eq("abc", "abc"));
    assert!(!text_eq("abc", "abd"));
}
