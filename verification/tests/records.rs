use notion::data_source::dto::response::GetDataSourceResponse;
use notion::data_source::types::{DataSourceParent, Property, PropertyInfo};
use notion::database::dto::response::GetDatabaseResponse;
use notion::database::types::{DataSource, DatabaseParent};
use notion::errors::DecodeError;
use notion::json::Json;
use notion::time::Timestamp;
use notion::types::{Annotations, Cover, EditorInfo, Icon, Method, Title, TitleText};

const SPAN: &str = "{\"type\":\"text\",\"text\":{\"content\":\"Tasks\",\"link\":null},\
\"annotations\":{\"bold\":false,\"italic\":true,\"strikethrough\":false,\"underline\":false,\
\"code\":false,\"color\":\"default\"},\"plain_text\":\"Tasks\",\"href\":null}";

fn database() -> String {
    format!(
        "{{\"object\":\"database\",\"id\":\"db\",\"title\":[{}],\
\"parent\":{{\"type\":\"page_id\",\"page_id\":\"pp\"}},\"is_inline\":false,\"in_trash\":false,\
\"cover\":null,\"icon\":{{\"type\":\"emoji\",\"emoji\":\"x\"}},\"public_url\":null,\
\"data_sources\":[{{\"id\":\"ds1\",\"name\":\"One\"}},{{\"id\":\"ds2\",\"name\":\"Two\"}}],\
\"description\":[\"first\",\"second\"],\"url\":\"https://example.org/db\",\
\"created_time\":\"1970-01-01T00:00:01Z\",\"last_edited_time\":\"1970-01-01T00:00:02Z\"}}",
        SPAN
    )
}

fn data_source() -> String {
    format!(
        "{{\"object\":\"data_source\",\"id\":\"ds\",\"title\":[{}],\"archived\":false,\
\"is_inline\":true,\"cover\":{{\"type\":\"external\"}},\"icon\":null,\
\"parent\":{{\"type\":\"database_id\",\"database_id\":\"db\"}},\
\"database_parent\":{{\"type\":\"workspace\"}},\
\"properties\":{{\"Done\":{{\"id\":\"a\",\"name\":\"Done\",\"type\":\"checkbox\",\"checkbox\":{{}}}},\
\"Name\":{{\"id\":\"title\",\"name\":\"Name\",\"type\":\"title\",\"title\":{{}}}}}},\
\"url\":\"https://example.org/ds\",\
\"created_time\":\"1970-01-01T00:00:03Z\",\"last_edited_time\":\"1970-01-01T00:00:04Z\"}}",
        SPAN
    )
}

#[test]
fn database_decodes_a_record() {
    let found = GetDatabaseResponse::decode(&Json::parse(&database()).unwrap()).unwrap();
    assert_eq!(found.get_id(), "db");
    assert_eq!(found.get_url(), "https://example.org/db");
    assert_eq!(found.get_title().len(), 1);
    assert_eq!(found.get_title()[0].get_plain_text(), "Tasks");
    let sources: Vec<(&str, &str)> =
        found.get_data_sources().iter().map(|s| (s.get_id(), s.get_name())).collect();
    assert_eq!(sources, vec![("ds1", "One"), ("ds2", "Two")]);
    assert_eq!(found.get_created_time(), Timestamp { seconds: 1, nanos: 0 });
    assert_eq!(found.get_last_edited_time(), Timestamp { seconds: 2, nanos: 0 });
}

#[test]
fn database_refuses_a_wrong_shape() {
    let broken = |from: &str, to: &str| {
        GetDatabaseResponse::decode(&Json::parse(&database().replace(from, to)).unwrap())
    };
    assert_eq!(
        broken("\"description\":[\"first\",\"second\"]", "\"description\":[\"first\",2]"),
        Err(DecodeError::WrongType("description".to_string()))
    );
    assert_eq!(
        broken("\"description\":[\"first\",\"second\"],", ""),
        Err(DecodeError::MissingField("description".to_string()))
    );
    assert_eq!(
        broken("{\"id\":\"ds2\",\"name\":\"Two\"}", "{\"id\":\"ds2\"}"),
        Err(DecodeError::MissingField("name".to_string()))
    );
    assert_eq!(
        broken("\"italic\":true", "\"italic\":1"),
        Err(DecodeError::WrongType("italic".to_string()))
    );
    assert_eq!(
        broken("\"is_inline\":false,", ""),
        Err(DecodeError::MissingField("is_inline".to_string()))
    );
    assert_eq!(
        broken("1970-01-01T00:00:02Z", ""),
        Err(DecodeError::WrongType("last_edited_time".to_string()))
    );
}

#[test]
fn data_source_decodes_a_record() {
    let found = GetDataSourceResponse::decode(&Json::parse(&data_source()).unwrap()).unwrap();
    assert_eq!(found.get_id(), "ds");
    let properties = found.get_properties();
    assert_eq!(properties.len(), 2);
    assert_eq!(properties[0].get_name(), "Done");
    assert_eq!(properties[0].get_id(), "a");
    assert_eq!(properties[0].get_property_info(), &PropertyInfo::Checkbox);
    assert_eq!(properties[1].get_name(), "Name");
    assert_eq!(properties[1].get_property_info(), &PropertyInfo::Title);
    assert_eq!(found.get_created_time(), Timestamp { seconds: 3, nanos: 0 });
}

#[test]
fn data_source_refuses_an_unknown_kind() {
    let text = data_source().replace("\"type\":\"checkbox\"", "\"type\":\"button\"");
    assert_eq!(
        GetDataSourceResponse::decode(&Json::parse(&text).unwrap()),
        Err(DecodeError::UnknownPropertyKind("button".to_string()))
    );
    let text = data_source().replace("\"database_parent\":{\"type\":\"workspace\"},", "");
    assert_eq!(
        GetDataSourceResponse::decode(&Json::parse(&text).unwrap()),
        Err(DecodeError::MissingField("database_parent".to_string()))
    );
}

#[test]
fn declared_property_reads_kind_id_and_name() {
    let doc = Json::parse("{\"id\":\"a\",\"name\":\"Due\",\"type\":\"date\",\"date\":{}}").unwrap();
    let property = Property::from(&doc).unwrap();
    assert_eq!(property.get_id(), "a");
    assert_eq!(property.get_name(), "Due");
    assert_eq!(*property.get_property_info(), PropertyInfo::Date);
    assert_eq!(property.clone(), property);
    let doc = Json::parse("{\"id\":\"a\",\"type\":\"date\"}").unwrap();
    assert_eq!(Property::from(&doc), Err(DecodeError::MissingField("name".to_string())));
    let doc = Json::parse("{\"name\":\"Due\",\"type\":\"date\"}").unwrap();
    assert_eq!(Property::from(&doc), Err(DecodeError::MissingField("id".to_string())));
    let doc = Json::parse("{\"id\":\"a\",\"name\":\"Due\"}").unwrap();
    assert_eq!(Property::from(&doc), Err(DecodeError::MissingField("type".to_string())));
}

#[test]
fn small_records_decode() {
    let parse = |text: &str| Json::parse(text).unwrap();
    let cover = Cover::decode(&parse("{\"type\":\"external\"}")).unwrap();
    assert_eq!(cover.get_type(), "external");
    assert_eq!(Cover::decode(&cover.to_json()), Ok(cover));
    let icon = Icon::decode(&parse("{\"type\":\"emoji\",\"emoji\":\"x\"}")).unwrap();
    assert_eq!(icon.get_type(), "emoji");
    assert_eq!(icon.get_emoji(), Some("x"));
    assert_eq!(Icon::decode(&icon.to_json()), Ok(icon));
    let plain = Icon::decode(&parse("{\"type\":\"file\"}")).unwrap();
    assert_eq!(plain.get_emoji(), None);
    assert_eq!(Icon::decode(&plain.to_json()), Ok(plain));
    let editor = EditorInfo::decode(&parse("{\"id\":\"u\",\"object\":\"user\"}")).unwrap();
    assert_eq!(editor.get_id(), "u");
    let text = TitleText::decode(&parse("{\"content\":\"c\",\"link\":null}")).unwrap();
    assert_eq!(text.get_content(), "c");
    assert_eq!(
        TitleText::decode(&parse("{\"content\":\"c\",\"link\":{\"url\":\"u\"}}")),
        Err(DecodeError::WrongType("link".to_string()))
    );
    assert_eq!(
        Annotations::decode(&parse("{\"bold\":true}")),
        Err(DecodeError::MissingField("italic".to_string()))
    );
    let span = Title::decode(&parse(SPAN)).unwrap();
    assert_eq!(span.get_plain_text(), "Tasks");
    let source = DataSource::decode(&parse("{\"id\":\"i\",\"name\":\"n\"}")).unwrap();
    assert_eq!((source.get_id(), source.get_name()), ("i", "n"));
    let parent = DatabaseParent::decode(&parse("{\"type\":\"page_id\",\"page_id\":\"p\"}")).unwrap();
    assert_eq!((parent.get_type(), parent.get_page_id()), ("page_id", Some("p")));
    let parent =
        DataSourceParent::decode(&parse("{\"type\":\"database_id\",\"database_id\":\"d\"}")).unwrap();
    assert_eq!((parent.get_type(), parent.get_database_id()), ("database_id", "d"));
}

#[test]
fn method_names() {
    assert_eq!(Method::Get.as_str(), "GET");
    assert_eq!(Method::Post.as_str(), "POST");
    assert_eq!(Method::Patch.as_str(), "PATCH");
    assert_eq!(Method::Delete.as_str(), "DELETE");
}
