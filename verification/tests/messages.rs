use ecosystem::error::{
    custom_message, io_message, parse_int_message, render_message, serialize_message,
    MessageKind, MyError,
};

fn io_error(text: &str) -> std::io::Error {
    std::io::Error::new(std::io::ErrorKind::Other, text.to_string())
}

fn parse_error(text: &str) -> std::num::ParseIntError {
    text.parse::<i32>().unwrap_err()
}

fn json_error(text: &str) -> serde_json::Error {
    serde_json::from_str::<u32>(text).unwrap_err()
}

#[test]
fn render_message_each_kind() {
    assert_eq!(render_message(MessageKind::Io, "x"), "IO Error `x`");
    assert_eq!(render_message(MessageKind::ParseInt, "x"), "Parse Int error `x`");
    assert_eq!(render_message(MessageKind::Serialize, "x"), "Serialize json error: `x`");
    assert_eq!(render_message(MessageKind::Custom, "x"), "Custom Error `x`");
}

#[test]
fn render_message_empty_text() {
    assert_eq!(render_message(MessageKind::Custom, ""), "Custom Error ``");
}

#[test]
fn custom_message_wraps_text() {
    assert_eq!(custom_message("This is a custom error"), "Custom Error `This is a custom error`");
}

#[test]
fn io_message_shows_inner_text() {
    assert_eq!(io_message(&io_error("disk gone")), "IO Error `disk gone`");
}

#[test]
fn parse_int_message_shows_inner_text() {
    assert_eq!(
        parse_int_message(&parse_error("abc")),
        "Parse Int error `invalid digit found in string`"
    );
    assert_eq!(
        parse_int_message(&parse_error("")),
        "Parse Int error `cannot parse integer from empty string`"
    );
}

#[test]
fn serialize_message_shows_inner_text() {
    let e = json_error("x");
    let inner = e.to_string();
    assert_eq!(serialize_message(&e), format!("Serialize json error: `{}`", inner));
    assert_eq!(serialize_message(&e), "Serialize json error: `expected value at line 1 column 1`");
}

#[test]
fn conversions_pick_the_matching_variant() {
    assert!(matches!(MyError::from(io_error("a")), MyError::Io(_)));
    assert!(matches!(MyError::from(parse_error("a")), MyError::ParseInt(_)));
    assert!(matches!(MyError::from(json_error("a")), MyError::Serialize(_)));
}

#[test]
fn message_of_each_variant() {
    assert_eq!(MyError::from(io_error("gone")).message(), "IO Error `gone`");
    assert_eq!(
        MyError::from(parse_error("99999999999")).message(),
        "Parse Int error `number too large to fit in target type`"
    );
    assert_eq!(
        MyError::from(json_error("[")).message(),
        format!("Serialize json error: `{}`", json_error("["))
    );
    assert_eq!(MyError::Custom("oops".to_string()).message(), "Custom Error `oops`");
}

#[test]
fn messages_of_different_kinds_differ() {
    let kinds = [MessageKind::Io, MessageKind::ParseInt, MessageKind::Serialize, MessageKind::Custom];
    for (i, a) in kinds.iter().enumerate() {
        for (j, b) in kinds.iter().enumerate() {
            if i != j {
                assert_ne!(render_message(*a, "same"), render_message(*b, "same"));
            }
        }
    }
}

#[test]
fn message_gives_back_its_text() {
    let m = custom_message("a `quoted` word");
    let inner = &m["Custom Error `".len()..m.len() - 1];
    assert_eq!(inner, "a `quoted` word");
    assert_ne!(custom_message("a"), custom_message("b"));
}
