use cloud_task_executor::{parse_json, Payload};

fn text(value: &str) -> Payload {
    Payload::Text(value.to_string())
}

fn number(digits: &str) -> Payload {
    Payload::Number(digits.to_string())
}

#[test]
fn scalars_parse_to_their_variants() {
    assert_eq!(parse_json("null"), Some(Payload::Null));
    assert_eq!(parse_json("true"), Some(Payload::Bool(true)));
    assert_eq!(parse_json("false"), Some(Payload::Bool(false)));
    assert_eq!(parse_json("\"hello\""), Some(text("hello")));
    assert_eq!(parse_json("\"\""), Some(text("")));
    assert_eq!(parse_json("  null \n"), Some(Payload::Null));
}

#[test]
fn numbers_are_kept_as_decimal_text() {
    assert_eq!(parse_json("1"), Some(number("1")));
    assert_eq!(parse_json("0"), Some(number("0")));
    assert_eq!(parse_json("-17"), Some(number("-17")));
    assert_eq!(parse_json("2.5"), Some(number("2.5")));
    assert_eq!(parse_json("18446744073709551615"), Some(number("18446744073709551615")));
}

#[test]
fn escapes_in_strings_are_decoded() {
    assert_eq!(parse_json("\"a\\nb\""), Some(text("a\nb")));
    assert_eq!(parse_json("\"\\u00e9\""), Some(text("\u{e9}")));
    assert_eq!(parse_json("\"quote: \\\"\""), Some(text("quote: \"")));
}

#[test]
fn arrays_keep_their_order() {
    assert_eq!(parse_json("[]"), Some(Payload::Array(vec![])));
    assert_eq!(
        parse_json("[1, \"two\", null, [true]]"),
        Some(Payload::Array(vec![
            number("1"),
            text("two"),
            Payload::Null,
            Payload::Array(vec![Payload::Bool(true)]),
        ]))
    );
}

#[test]
fn objects_parse_to_their_fields() {
    assert_eq!(parse_json("{}"), Some(Payload::Object(vec![])));
    let parsed = parse_json("{\"payload_key\": \"hello\", \"n\": {\"deep\": [1]}}").unwrap();
    assert_eq!(parsed.get("payload_key"), Some(&text("hello")));
    assert_eq!(
        parsed.get("n"),
        Some(&Payload::Object(vec![("deep".to_string(), Payload::Array(vec![number("1")]))]))
    );
    assert_eq!(parsed.get("missing"), None);
}

#[test]
fn of_a_repeated_key_the_last_value_is_read() {
    let parsed = parse_json("{\"a\": 1, \"a\": 2}").unwrap();
    assert_eq!(parsed.get("a"), Some(&number("2")));
}

#[test]
fn text_that_is_no_json_is_rejected() {
    assert_eq!(parse_json(""), None);
    assert_eq!(parse_json("{"), None);
    assert_eq!(parse_json("{\"a\": }"), None);
    assert_eq!(parse_json("not json"), None);
    assert_eq!(parse_json("[1, 2,]"), None);
    assert_eq!(parse_json("null null"), None);
    assert_eq!(parse_json("'single'"), None);
}

#[test]
fn a_parsed_text_is_not_handed_back_as_text() {
    assert_ne!(parse_json("{\"a\": 1}"), Some(text("{\"a\": 1}")));
    assert_ne!(parse_json("\"x\""), Some(text("\"x\"")));
}
