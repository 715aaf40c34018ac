use ecosystem::error::MyError;
use ecosystem::program::{context_message, fail_with_error, frame_context};

#[test]
fn fail_with_error_returns_custom_error() {
    match fail_with_error() {
        Err(MyError::Custom(s)) => assert_eq!(s, "This is a custom error"),
        other => panic!("unexpected result: {:?}", other),
    }
}

#[test]
fn fail_with_error_message() {
    let e = fail_with_error().unwrap_err();
    assert_eq!(e.message(), "Custom Error `This is a custom error`");
}

#[test]
fn frame_context_wraps_quoted_name() {
    assert_eq!(frame_context("\"foo.txt\""), "filename: \"foo.txt\", not found");
}

#[test]
fn context_message_for_missing_file() {
    assert_eq!(context_message("foo.txt"), "filename: \"foo.txt\", not found");
}

#[test]
fn context_message_escapes_quotes_and_newlines() {
    assert_eq!(context_message("a\"b"), "filename: \"a\\\"b\", not found");
    assert_eq!(context_message("a\nb"), "filename: \"a\\nb\", not found");
    assert_eq!(context_message(""), "filename: \"\", not found");
}
