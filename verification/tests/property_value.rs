use notion::data_source::types::PropertyInfo;
use notion::errors::{DecodeError, ValidationError};
use notion::json::{Json, Member};
use notion::types::PropertyValue;

fn doc(text: &str) -> Json {
    Json::parse(text).unwrap()
}

#[test]
fn decode_select() {
    let value =
        PropertyValue::decode(&doc("{\"id\":\"1\",\"type\":\"select\",\"select\":{\"name\":\"Done\"}}"))
            .unwrap();
    assert_eq!(value, PropertyValue::Select("Done".to_string()));
    assert_eq!(value.get_value(), "Done");
}

#[test]
fn decode_date_with_null_end() {
    let value = PropertyValue::decode(&doc(
        "{\"id\":\"2\",\"type\":\"date\",\"date\":{\"start\":\"2025-01-01\",\"end\":null}}",
    ))
    .unwrap();
    assert_eq!(value, PropertyValue::Date("2025-01-01".to_string(), None));
    assert_eq!(value.get_value(), "2025-01-01");
}

#[test]
fn decode_date_with_start_alone() {
    let value = PropertyValue::decode(&doc(
        "{\"id\":\"2\",\"type\":\"date\",\"date\":{\"start\":\"2025-01-01\"}}",
    ))
    .unwrap();
    assert_eq!(value, PropertyValue::Date("2025-01-01".to_string(), None));
    assert_eq!(value.get_value(), "2025-01-01");
}

#[test]
fn decode_date_with_end() {
    let value = PropertyValue::decode(&doc(
        "{\"type\":\"date\",\"date\":{\"start\":\"2025-01-01\",\"end\":\"2025-01-03\"}}",
    ))
    .unwrap();
    assert_eq!(
        value,
        PropertyValue::Date("2025-01-01".to_string(), Some("2025-01-03".to_string()))
    );
    assert_eq!(value.get_value(), "2025-01-01~2025-01-03");
}

#[test]
fn decode_date_refuses_a_wrong_shape() {
    assert_eq!(
        PropertyValue::decode(&doc("{\"type\":\"date\",\"date\":{\"end\":\"2025-01-03\"}}")),
        Err(DecodeError::MissingField("start".to_string()))
    );
    assert_eq!(
        PropertyValue::decode(&doc("{\"type\":\"date\",\"date\":{\"start\":1}}")),
        Err(DecodeError::WrongType("start".to_string()))
    );
    assert_eq!(
        PropertyValue::decode(&doc("{\"type\":\"date\",\"date\":{\"start\":\"a\",\"end\":5}}")),
        Err(DecodeError::WrongType("end".to_string()))
    );
    assert_eq!(
        PropertyValue::decode(&doc("{\"type\":\"date\",\"date\":null}")),
        Err(DecodeError::MissingField("start".to_string()))
    );
}

#[test]
fn decode_unknown_kind_fails() {
    assert_eq!(
        PropertyValue::decode(&doc("{\"id\":\"1\",\"type\":\"bogus_kind\",\"bogus_kind\":{}}")),
        Err(DecodeError::UnknownPropertyKind("bogus_kind".to_string()))
    );
    assert_eq!(
        PropertyInfo::decode(&doc("{\"type\":\"bogus_kind\"}")),
        Err(DecodeError::UnknownPropertyKind("bogus_kind".to_string()))
    );
}

#[test]
fn decode_matches_the_kind_letter_for_letter() {
    assert_eq!(
        PropertyValue::decode(&doc("{\"type\":\"Select\",\"Select\":{\"name\":\"x\"}}")),
        Err(DecodeError::UnknownPropertyKind("Select".to_string()))
    );
    assert_eq!(PropertyInfo::from_name("select"), Some(PropertyInfo::Select));
    assert_eq!(PropertyInfo::from_name("SELECT"), None);
    assert_eq!(PropertyInfo::from_name(""), None);
    assert_eq!(PropertyInfo::from_name("type"), None);
}

#[test]
fn decode_needs_the_type_and_the_payload() {
    assert_eq!(
        PropertyValue::decode(&doc("{\"select\":{\"name\":\"x\"}}")),
        Err(DecodeError::MissingField("type".to_string()))
    );
    assert_eq!(
        PropertyValue::decode(&doc("{\"type\":7}")),
        Err(DecodeError::WrongType("type".to_string()))
    );
    assert_eq!(
        PropertyValue::decode(&doc("{\"type\":\"select\"}")),
        Err(DecodeError::MissingField("select".to_string()))
    );
    assert_eq!(
        PropertyValue::decode(&doc("{\"type\":\"url\"}")),
        Err(DecodeError::MissingField("url".to_string()))
    );
    assert_eq!(
        PropertyValue::decode(&doc("[]")),
        Err(DecodeError::MissingField("type".to_string()))
    );
}

#[test]
fn decode_title_takes_the_first_span() {
    let value = PropertyValue::decode(&doc(
        "{\"type\":\"title\",\"title\":[{\"plain_text\":\"Hello\"},{\"plain_text\":\" world\"}]}",
    ))
    .unwrap();
    assert_eq!(value, PropertyValue::Title("Hello".to_string()));
    assert_eq!(value.get_value(), "Hello");
}

#[test]
fn decode_title_refuses_a_wrong_shape() {
    assert_eq!(
        PropertyValue::decode(&doc("{\"type\":\"title\",\"title\":[]}")),
        Err(DecodeError::EmptyTitle)
    );
    assert_eq!(
        PropertyValue::decode(&doc("{\"type\":\"title\",\"title\":{}}")),
        Err(DecodeError::WrongType("title".to_string()))
    );
    assert_eq!(
        PropertyValue::decode(&doc("{\"type\":\"title\",\"title\":[{}]}")),
        Err(DecodeError::MissingField("plain_text".to_string()))
    );
    assert_eq!(
        PropertyValue::decode(&doc("{\"type\":\"title\",\"title\":[{\"plain_text\":null}]}")),
        Err(DecodeError::WrongType("plain_text".to_string()))
    );
}

#[test]
fn decode_checkbox() {
    let value = PropertyValue::decode(&doc("{\"type\":\"checkbox\",\"checkbox\":true}")).unwrap();
    assert_eq!(value, PropertyValue::Checkbox(true));
    assert_eq!(value.get_value(), "true");
    let value = PropertyValue::decode(&doc("{\"type\":\"checkbox\",\"checkbox\":false}")).unwrap();
    assert_eq!(value.get_value(), "false");
    assert_eq!(
        PropertyValue::decode(&doc("{\"type\":\"checkbox\",\"checkbox\":\"true\"}")),
        Err(DecodeError::WrongType("checkbox".to_string()))
    );
}

#[test]
fn decode_status_and_select_need_a_name() {
    let value =
        PropertyValue::decode(&doc("{\"type\":\"status\",\"status\":{\"name\":\"Doing\"}}")).unwrap();
    assert_eq!(value, PropertyValue::Status("Doing".to_string()));
    assert_eq!(value.get_value(), "Doing");
    assert_eq!(
        PropertyValue::decode(&doc("{\"type\":\"select\",\"select\":null}")),
        Err(DecodeError::MissingField("name".to_string()))
    );
    assert_eq!(
        PropertyValue::decode(&doc("{\"type\":\"status\",\"status\":{\"name\":3}}")),
        Err(DecodeError::WrongType("name".to_string()))
    );
}

#[test]
fn decode_multi_select_keeps_the_order_of_the_wire() {
    let value = PropertyValue::decode(&doc(
        "{\"type\":\"multi_select\",\"multi_select\":[{\"name\":\"b\"},{\"name\":\"a\"},{\"name\":\"b\"}]}",
    ))
    .unwrap();
    assert_eq!(
        value,
        PropertyValue::MultiSelect(vec!["b".to_string(), "a".to_string(), "b".to_string()])
    );
    assert_eq!(value.get_value(), "b|a|b");
}

#[test]
fn decode_multi_select_reports_the_first_option_without_a_name() {
    assert_eq!(
        PropertyValue::decode(&doc(
            "{\"type\":\"multi_select\",\"multi_select\":[{\"name\":\"a\"},{\"name\":1},{}]}"
        )),
        Err(DecodeError::WrongType("name".to_string()))
    );
    assert_eq!(
        PropertyValue::decode(&doc(
            "{\"type\":\"multi_select\",\"multi_select\":[{},{\"name\":1}]}"
        )),
        Err(DecodeError::MissingField("name".to_string()))
    );
    assert_eq!(
        PropertyValue::decode(&doc("{\"type\":\"multi_select\",\"multi_select\":{}}")),
        Err(DecodeError::WrongType("multi_select".to_string()))
    );
}

#[test]
fn display_of_multi_select_edge_cases() {
    assert_eq!(PropertyValue::MultiSelect(vec![]).get_value(), "");
    assert_eq!(PropertyValue::MultiSelect(vec!["only".to_string()]).get_value(), "only");
    assert_eq!(
        PropertyValue::MultiSelect(vec!["".to_string(), "".to_string()]).get_value(),
        "|"
    );
}

#[test]
fn decode_formula() {
    let value =
        PropertyValue::decode(&doc("{\"type\":\"formula\",\"formula\":{\"string\":\"a|b\"}}"))
            .unwrap();
    assert_eq!(value, PropertyValue::Formula("a|b".to_string()));
    assert_eq!(value.get_value(), "a|b");
    assert_eq!(
        PropertyValue::decode(&doc("{\"type\":\"formula\",\"formula\":{\"number\":3}}")),
        Err(DecodeError::MissingFormulaString)
    );
    assert_eq!(
        PropertyValue::decode(&doc("{\"type\":\"formula\",\"formula\":{\"string\":null}}")),
        Err(DecodeError::MissingFormulaString)
    );
}

#[test]
fn decode_kinds_without_data() {
    let cases = [
        ("id", PropertyValue::ID),
        ("verification", PropertyValue::Verification),
        ("rich_text", PropertyValue::RichText),
        ("number", PropertyValue::Number),
        ("timestamp", PropertyValue::Timestamp),
        ("url", PropertyValue::Url),
        ("place", PropertyValue::Place),
        ("people", PropertyValue::People),
        ("phone_number", PropertyValue::PhoneNumber),
        ("files", PropertyValue::Files),
        ("relation", PropertyValue::Relation),
        ("rollup", PropertyValue::Rollup),
        ("created_time", PropertyValue::CreatedTime),
        ("last_edited_time", PropertyValue::LastEditedTime),
    ];
    for (name, expected) in cases {
        let text = format!("{{\"type\":\"{}\",\"{}\":{{}}}}", name, name);
        let value = PropertyValue::decode(&doc(&text)).unwrap();
        assert_eq!(value, expected);
        assert_eq!(value.get_value(), name);
        assert_eq!(value.to_string(), name);
        assert_eq!(value.kind().to_string(), name);
    }
}

#[test]
fn kind_names_are_found_again() {
    let kinds = [
        PropertyInfo::ID,
        PropertyInfo::Verification,
        PropertyInfo::Title,
        PropertyInfo::RichText,
        PropertyInfo::Number,
        PropertyInfo::Checkbox,
        PropertyInfo::Date,
        PropertyInfo::Timestamp,
        PropertyInfo::Status,
        PropertyInfo::Select,
        PropertyInfo::MultiSelect,
        PropertyInfo::Url,
        PropertyInfo::Place,
        PropertyInfo::People,
        PropertyInfo::PhoneNumber,
        PropertyInfo::Files,
        PropertyInfo::Formula,
        PropertyInfo::Relation,
        PropertyInfo::Rollup,
        PropertyInfo::CreatedTime,
        PropertyInfo::LastEditedTime,
    ];
    for kind in kinds {
        assert_eq!(PropertyInfo::from_name(&kind.to_string()), Some(kind));
    }
}

#[test]
fn variant_eq_looks_at_the_kind_alone() {
    let a = PropertyValue::Select("a".to_string());
    let b = PropertyValue::Select("b".to_string());
    let c = PropertyValue::Status("a".to_string());
    assert!(a.variant_eq(&b));
    assert!(!a.variant_eq(&c));
    assert!(PropertyValue::Url.variant_eq(&PropertyValue::Url));
    assert!(!PropertyValue::Url.variant_eq(&PropertyValue::Place));
}

#[test]
fn display_is_the_same_each_time() {
    let value = PropertyValue::Date("2025-01-01".to_string(), Some("2025-01-02".to_string()));
    assert_eq!(value.get_value(), value.get_value());
    assert_eq!(value.clone().get_value(), value.get_value());
}

#[test]
fn encode_writable_kinds() {
    assert_eq!(
        PropertyValue::Checkbox(true).encode_for_write(),
        Ok(Json::object_of("checkbox", Json::Bool(true)))
    );
    assert_eq!(
        PropertyValue::Select("Done".to_string()).encode_for_write(),
        Ok(Json::object_of("select", Json::object_of("name", Json::string("Done"))))
    );
    assert_eq!(
        PropertyValue::Status("Doing".to_string()).encode_for_write(),
        Ok(Json::object_of("status", Json::object_of("name", Json::string("Doing"))))
    );
    assert_eq!(
        PropertyValue::MultiSelect(vec!["a".to_string(), "b".to_string()]).encode_for_write(),
        Ok(Json::object_of(
            "multi_select",
            Json::array(vec![
                Json::object_of("name", Json::string("a")),
                Json::object_of("name", Json::string("b")),
            ])
        ))
    );
    assert_eq!(
        PropertyValue::Date("2025-11-27".to_string(), None).encode_for_write(),
        Ok(Json::object_of("date", Json::object_of("start", Json::string("2025-11-27"))))
    );
    assert_eq!(
        PropertyValue::Date("2025-11-27".to_string(), Some("2025-11-28".to_string()))
            .encode_for_write(),
        Ok(Json::object_of(
            "date",
            Json::object(vec![
                Member::new("start", Json::string("2025-11-27")),
                Member::new("end", Json::string("2025-11-28")),
            ])
        ))
    );
}

#[test]
fn encode_refuses_other_kinds() {
    assert_eq!(
        PropertyValue::Title("t".to_string()).encode_for_write(),
        Err(ValidationError::UnsupportedWriteKind(PropertyInfo::Title))
    );
    assert_eq!(
        PropertyValue::Formula("f".to_string()).encode_for_write(),
        Err(ValidationError::UnsupportedWriteKind(PropertyInfo::Formula))
    );
    assert_eq!(
        PropertyValue::Rollup.encode_for_write(),
        Err(ValidationError::UnsupportedWriteKind(PropertyInfo::Rollup))
    );
}

#[test]
fn what_is_written_is_read_back() {
    let values = [
        PropertyValue::Checkbox(false),
        PropertyValue::Select("a b".to_string()),
        PropertyValue::Status("".to_string()),
        PropertyValue::MultiSelect(vec![]),
        PropertyValue::MultiSelect(vec!["x".to_string(), "y|z".to_string()]),
        PropertyValue::Date("2025-01-01".to_string(), None),
        PropertyValue::Date("2025-01-01".to_string(), Some("2025-02-01".to_string())),
    ];
    for value in values {
        let written = value.encode_for_write().unwrap();
        let name = value.to_string();
        let payload = written.get(&name).unwrap();
        assert_eq!(PropertyValue::decode_payload(value.kind(), payload), Ok(value.clone()));
        let tagged = Json::object(vec![
            Member::new("type", Json::string(&name)),
            Member::new(&name, payload.clone()),
        ]);
        let read = PropertyValue::decode(&tagged).unwrap();
        assert_eq!(read, value);
        assert_eq!(read.encode_for_write(), Ok(written));
    }
}
