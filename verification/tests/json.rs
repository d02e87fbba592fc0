use notion::errors::DecodeError;
use notion::json::{Json, Member};

#[test]
fn parse_reads_every_kind_of_value() {
    let doc = Json::parse("{\"a\": [1, true, null, \"x\", -2.5]}").unwrap();
    let items = doc.get("a").unwrap().as_array().unwrap();
    assert_eq!(items.len(), 5);
    assert_eq!(items[0].as_number(), Some("1"));
    assert_eq!(items[1].as_bool(), Some(true));
    assert!(items[2].is_null());
    assert_eq!(items[3].as_str(), Some("x"));
    assert_eq!(items[4].as_number(), Some("-2.5"));
}

#[test]
fn parse_gives_a_document_and_not_its_text() {
    let doc = Json::parse("\"{}\"").unwrap();
    assert_eq!(doc, Json::Str("{}".to_string()));
    let empty = Json::parse("{}").unwrap();
    assert_eq!(empty, Json::Object(vec![]));
}

#[test]
fn parse_refuses_what_is_no_json() {
    match Json::parse("{\"a\": ") {
        Err(DecodeError::MalformedJson(message)) => assert!(!message.is_empty()),
        other => panic!("unexpected: {:?}", other),
    }
    assert!(matches!(Json::parse(""), Err(DecodeError::MalformedJson(_))));
    assert!(matches!(Json::parse("{} x"), Err(DecodeError::MalformedJson(_))));
}

#[test]
fn get_finds_the_first_member_of_a_name() {
    let doc = Json::object(vec![
        Member::new("a", Json::Bool(false)),
        Member::new("b", Json::Null),
        Member::new("a", Json::Bool(true)),
    ]);
    assert_eq!(doc.get("a"), Some(&Json::Bool(false)));
    assert_eq!(doc.get("b"), Some(&Json::Null));
    assert_eq!(doc.get("c"), None);
    assert_eq!(Json::Null.get("a"), None);
    assert_eq!(Json::array(vec![]).get("a"), None);
}

#[test]
fn accessors_answer_only_for_their_own_kind() {
    let text = Json::string("x");
    assert_eq!(text.as_str(), Some("x"));
    assert_eq!(text.as_bool(), None);
    assert_eq!(text.as_number(), None);
    assert!(text.as_array().is_none());
    assert!(text.as_object().is_none());
    assert!(!text.is_null());
    let number = Json::Number("12".to_string());
    assert_eq!(number.as_number(), Some("12"));
    assert_eq!(number.as_str(), None);
    assert_eq!(Json::Bool(true).as_bool(), Some(true));
    assert!(Json::Null.is_null());
}

#[test]
fn clone_copies_the_whole_document() {
    let doc = Json::parse("{\"a\": {\"b\": [1, {\"c\": \"d\"}]}, \"e\": null}").unwrap();
    assert_eq!(doc.clone(), doc);
}

#[test]
fn object_of_has_one_member() {
    let doc = Json::object_of("k", Json::string("v"));
    assert_eq!(doc.as_object().unwrap().len(), 1);
    assert_eq!(doc.get("k").unwrap().as_str(), Some("v"));
}
