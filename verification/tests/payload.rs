use cloud_task_executor::Payload;

fn text(value: &str) -> Payload {
    Payload::Text(value.to_string())
}

fn object(fields: Vec<(&str, Payload)>) -> Payload {
    Payload::Object(fields.into_iter().map(|(name, value)| (name.to_string(), value)).collect())
}

#[test]
fn get_finds_a_field_of_an_object() {
    let payload = object(vec![("a", text("1")), ("b", text("2"))]);
    assert_eq!(payload.get("a"), Some(&text("1")));
    assert_eq!(payload.get("b"), Some(&text("2")));
    assert_eq!(payload.get("c"), None);
}

#[test]
fn get_on_a_value_that_is_no_object_finds_nothing() {
    assert_eq!(Payload::Null.get("a"), None);
    assert_eq!(text("a").get("a"), None);
    assert_eq!(Payload::Array(vec![text("a")]).get("a"), None);
    assert_eq!(Payload::Bool(true).get("a"), None);
    assert_eq!(Payload::Number("1".to_string()).get("a"), None);
}

#[test]
fn of_two_fields_with_one_name_the_last_counts() {
    let payload = object(vec![("a", text("old")), ("b", text("2")), ("a", text("new"))]);
    assert_eq!(payload.get("a"), Some(&text("new")));
}

#[test]
fn as_str_gives_the_text_of_a_text_value_only() {
    assert_eq!(text("hello").as_str(), Some("hello"));
    assert_eq!(text("").as_str(), Some(""));
    assert_eq!(Payload::Null.as_str(), None);
    assert_eq!(Payload::Number("1".to_string()).as_str(), None);
    assert_eq!(Payload::Bool(false).as_str(), None);
    assert_eq!(Payload::object().as_str(), None);
}

#[test]
fn the_empty_object_has_no_fields() {
    assert_eq!(Payload::object(), Payload::Object(vec![]));
    assert_eq!(Payload::object().get("a"), None);
}

#[test]
fn insert_adds_a_field() {
    let mut payload = Payload::object();
    payload.insert("a".to_string(), text("1"));
    assert_eq!(payload.get("a"), Some(&text("1")));
    assert_eq!(payload, object(vec![("a", text("1"))]));
}

#[test]
fn insert_replaces_every_field_of_that_name() {
    let mut payload = object(vec![("a", text("x")), ("b", text("2")), ("a", text("y"))]);
    payload.insert("a".to_string(), text("z"));
    assert_eq!(payload, object(vec![("b", text("2")), ("a", text("z"))]));
}

#[test]
fn insert_leaves_a_value_that_is_no_object_alone() {
    let mut payload = text("plain");
    payload.insert("a".to_string(), text("1"));
    assert_eq!(payload, text("plain"));
    let mut payload = Payload::Null;
    payload.insert("a".to_string(), text("1"));
    assert_eq!(payload, Payload::Null);
}

#[test]
fn remove_takes_a_field_out() {
    let mut payload = object(vec![("a", text("1")), ("b", text("2")), ("a", text("3"))]);
    payload.remove("a");
    assert_eq!(payload, object(vec![("b", text("2"))]));
    assert_eq!(payload.get("a"), None);
}

#[test]
fn remove_of_a_missing_field_changes_nothing() {
    let mut payload = object(vec![("a", text("1"))]);
    payload.remove("b");
    assert_eq!(payload, object(vec![("a", text("1"))]));
    let mut payload = Payload::Array(vec![]);
    payload.remove("a");
    assert_eq!(payload, Payload::Array(vec![]));
}

#[test]
fn merge_writes_the_other_fields_over_its_own() {
    let mut payload = object(vec![("a", text("1")), ("b", text("2"))]);
    payload.merge(object(vec![("b", text("3")), ("c", text("4"))]));
    assert_eq!(payload.get("a"), Some(&text("1")));
    assert_eq!(payload.get("b"), Some(&text("3")));
    assert_eq!(payload.get("c"), Some(&text("4")));
}

#[test]
fn merge_needs_two_objects() {
    let mut payload = object(vec![("a", text("1"))]);
    payload.merge(text("no object"));
    assert_eq!(payload, object(vec![("a", text("1"))]));
    let mut payload = Payload::Null;
    payload.merge(object(vec![("a", text("1"))]));
    assert_eq!(payload, Payload::Null);
}

#[test]
fn a_clone_has_the_same_content() {
    let payload = object(vec![
        ("list", Payload::Array(vec![Payload::Null, Payload::Bool(true), text("x")])),
        ("inner", object(vec![("n", Payload::Number("-2.5".to_string()))])),
    ]);
    assert_eq!(payload.clone(), payload);
    assert_eq!(Payload::Null.clone(), Payload::Null);
}
