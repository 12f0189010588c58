use display_more::display_option::{DisplayDebugOptionExt, DisplayOptionExt};

#[test]
fn test_display_option() {
    let option = Some(1);
    assert_eq!(option.display().to_string(), "1");
}

#[test]
fn test_display_option_none() {
    let option = None::<u64>;
    assert_eq!(option.display().to_string(), "None");
}

#[test]
fn test_debug_option() {
    assert_eq!(Some(1).display_debug().to_string(), "1");
    assert_eq!(None::<u64>.display_debug().to_string(), "None");
    // Debug adds quotes around strings
    assert_eq!(Some("hello").display_debug().to_string(), "\"hello\"");
    // Vec has Debug but not Display
    assert_eq!(Some(vec![1, 2, 3]).display_debug().to_string(), "[1, 2, 3]");
}

#[test]
fn display_option_of_text_is_the_text_itself() {
    assert_eq!(Some("hello").display().to_string(), "hello");
    assert_eq!(Some(String::from("a b")).display().to_string(), "a b");
    assert_eq!(Some("").display().to_string(), "");
}

#[test]
fn display_option_of_the_word_none_is_not_told_apart() {
    assert_eq!(Some("None").display().to_string(), "None");
    assert_eq!(None::<&str>.display().to_string(), "None");
}

#[test]
fn debug_option_escapes_what_a_literal_would() {
    assert_eq!(
        Some("say \"hi\"\n\tnow\\").display_debug().to_string(),
        "\"say \\\"hi\\\"\\n\\tnow\\\\\""
    );
    assert_eq!(Some(String::from("it's")).display_debug().to_string(), "\"it's\"");
    assert_eq!(Some("").display_debug().to_string(), "\"\"");
}

#[test]
fn debug_option_of_lists() {
    assert_eq!(Some(Vec::<u8>::new()).display_debug().to_string(), "[]");
    assert_eq!(Some(vec![7u8]).display_debug().to_string(), "[7]");
    assert_eq!(Some(vec!["a", "b"]).display_debug().to_string(), "[\"a\", \"b\"]");
    assert_eq!(
        Some(vec![vec![1, 2], vec![], vec![-3]]).display_debug().to_string(),
        "[[1, 2], [], [-3]]"
    );
    assert_eq!(Some(vec![true, false]).display_debug().to_string(), "[true, false]");
}

#[test]
fn debug_option_agrees_with_std() {
    let texts = ["", "plain", "quote\"d", "tab\there", "uni\u{301}code", "nul\0", "\u{1f600}"];
    for text in texts {
        assert_eq!(Some(text).display_debug().to_string(), format!("{:?}", text));
    }
    let numbers = vec![i64::MIN, -1, 0, 1, i64::MAX];
    assert_eq!(Some(numbers.clone()).display_debug().to_string(), format!("{:?}", numbers));
}
