use discord_interaction::json::Json;
use discord_interaction::json::Member;

fn member(key: &str, value: Json) -> Member {
    Member { key: key.to_string(), value }
}

fn text(s: &str) -> Json {
    Json::Str(s.to_string())
}

#[test]
fn get_finds_a_member_by_key() {
    let object = Json::Object(vec![member("a", Json::Int(1)), member("b", Json::Int(2))]);
    assert_eq!(object.get("a"), Some(&Json::Int(1)));
    assert_eq!(object.get("b"), Some(&Json::Int(2)));
    assert_eq!(object.get("c"), None);
}

#[test]
fn get_takes_the_first_of_two_members_with_one_key() {
    let object = Json::Object(vec![member("a", Json::Int(1)), member("a", Json::Int(2))]);
    assert_eq!(object.get("a"), Some(&Json::Int(1)));
}

#[test]
fn get_on_what_is_no_object_finds_nothing() {
    assert_eq!(Json::Null.get("a"), None);
    assert_eq!(Json::Int(3).get("a"), None);
    assert_eq!(text("a").get("a"), None);
    assert_eq!(Json::Array(vec![text("a")]).get("a"), None);
    assert_eq!(Json::Object(vec![]).get("a"), None);
}

#[test]
fn has_counts_a_null_member() {
    let object = Json::Object(vec![member("value", Json::Null)]);
    assert!(object.has("value"));
    assert!(!object.has("style"));
}

#[test]
fn text_reads_strings_only() {
    let object = Json::Object(vec![
        member("s", text("x")),
        member("n", Json::Int(1)),
        member("z", Json::Null),
    ]);
    assert_eq!(object.text("s"), Some("x".to_string()));
    assert_eq!(object.text("n"), None);
    assert_eq!(object.text("z"), None);
    assert_eq!(object.text("missing"), None);
}

#[test]
fn optional_text_takes_missing_and_null_as_absent() {
    let object = Json::Object(vec![
        member("s", text("x")),
        member("n", Json::Int(1)),
        member("z", Json::Null),
    ]);
    assert_eq!(object.optional_text("s"), Some(Some("x".to_string())));
    assert_eq!(object.optional_text("z"), Some(None));
    assert_eq!(object.optional_text("missing"), Some(None));
    assert_eq!(object.optional_text("n"), None);
}

#[test]
fn integer_reads_integers_only() {
    let object = Json::Object(vec![
        member("n", Json::Int(-7)),
        member("r", Json::Real),
        member("b", Json::Bool(true)),
        member("s", text("1")),
    ]);
    assert_eq!(object.integer("n"), Some(-7));
    assert_eq!(object.integer("r"), None);
    assert_eq!(object.integer("b"), None);
    assert_eq!(object.integer("s"), None);
    assert_eq!(object.integer("missing"), None);
}

#[test]
fn list_reads_arrays_only() {
    let object = Json::Object(vec![
        member("a", Json::Array(vec![Json::Int(1), Json::Null])),
        member("o", Json::Object(vec![])),
    ]);
    assert_eq!(object.list("a"), Some(&vec![Json::Int(1), Json::Null]));
    assert_eq!(object.list("o"), None);
    assert_eq!(object.list("missing"), None);
}
