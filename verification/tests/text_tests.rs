use questquest::text::{decimal_text, join_with_newlines, nat_text, split_at_newlines};

#[test]
fn test_decimal_text() {
    assert_eq!(nat_text(0), "0");
    assert_eq!(nat_text(1234567890), "1234567890");
    assert_eq!(nat_text(u64::MAX), u64::MAX.to_string());
    assert_eq!(decimal_text(-42), "-42");
    assert_eq!(decimal_text(i64::MIN), i64::MIN.to_string());
    assert_eq!(decimal_text(7), "7");
}

#[test]
fn test_split_and_join() {
    assert_eq!(split_at_newlines("a\nb\n"), vec!["a", "b", ""]);
    assert_eq!(split_at_newlines(""), vec![""]);
    let lines = vec!["x".to_string(), "".to_string(), "y".to_string()];
    assert_eq!(join_with_newlines(&lines), "x\n\ny");
    assert_eq!(split_at_newlines(&join_with_newlines(&lines)), lines);
}
