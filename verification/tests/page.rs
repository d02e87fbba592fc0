use notion::data_source::dto::response::PageInfo;
use notion::errors::DecodeError;
use notion::json::{Json, Member};
use notion::page::dto::request::{PageCreateBody, PageUpdateBody};
use notion::page::types::{Page, PageParent, ParentType};
use notion::data_source::types::PropertyInfo;
use notion::errors::ValidationError;
use notion::page::{create_page_request, update_page_request, write_property_request};
use notion::time::Timestamp;
use notion::types::{Method, Property, PropertyValue};

const PAGE: &str = "{\"object\":\"page\",\"id\":\"page-a\",\"archived\":true,\"is_locked\":false,\
\"cover\":{\"type\":\"external\"},\"icon\":{\"type\":\"emoji\",\"emoji\":\"x\"},\
\"parent\":{\"type\":\"page_id\",\"page_id\":\"pp\"},\
\"properties\":{\"Tags\":{\"id\":\"a\",\"type\":\"select\",\"select\":{\"name\":\"x\"}}},\
\"url\":\"https://example.org/page-a\",\
\"created_by\":{\"object\":\"user\",\"id\":\"u1\"},\"created_time\":\"1970-01-01T00:00:10Z\",\
\"last_edited_by\":{\"object\":\"user\",\"id\":\"u2\"},\"last_edited_time\":\"1970-01-01T00:01:00Z\"}";

fn select(name: &str) -> Property {
    let doc = Json::object(vec![
        Member::new("id", Json::string("s")),
        Member::new("type", Json::string("select")),
        Member::new("select", Json::object_of("name", Json::string(name))),
    ]);
    Property::new("Choice", &doc).unwrap()
}

fn date(start: &str) -> Property {
    let doc = Json::object(vec![
        Member::new("id", Json::string("d")),
        Member::new("type", Json::string("date")),
        Member::new("date", Json::object_of("start", Json::string(start))),
    ]);
    Property::new("When", &doc).unwrap()
}

#[test]
fn test_update_page() {
    let page_id = "{page_id}";
    let properties = Json::object_of(
        "날짜",
        Json::object_of("date", Json::object_of("start", Json::string("2025-11-27"))),
    );
    let request = update_page_request(page_id, properties.clone());
    assert_eq!(request.get_method(), Method::Patch);
    assert_eq!(request.get_endpoint(), "pages/{page_id}");
    assert_eq!(request.get_body(), &Json::object_of("properties", properties));
    let written = PropertyValue::Date("2025-11-27".to_string(), None).encode_for_write().unwrap();
    assert_eq!(request.get_body().get("properties").unwrap().get("날짜"), Some(&written));
}

#[test]
fn write_property_request_encodes_the_value() {
    let value = PropertyValue::Date("2025-11-27".to_string(), None);
    let request = write_property_request("{page_id}", "날짜", &value).unwrap();
    let properties = Json::object_of(
        "날짜",
        Json::object_of("date", Json::object_of("start", Json::string("2025-11-27"))),
    );
    assert_eq!(request, update_page_request("{page_id}", properties));
    assert_eq!(
        write_property_request("{page_id}", "Name", &PropertyValue::Title("t".to_string())),
        Err(ValidationError::UnsupportedWriteKind(PropertyInfo::Title))
    );
}

#[test]
fn find_property_returns_the_first_of_a_kind() {
    let page = PageInfo::new("p", vec![select("x"), date("2025-01-01")]);
    let any_date = PropertyValue::Date(String::new(), None);
    assert_eq!(page.find_property(&any_date), Some("2025-01-01".to_string()));
    let page = PageInfo::new("p", vec![select("x")]);
    assert_eq!(page.find_property(&any_date), None);
}

#[test]
fn find_property_ignores_names_and_data() {
    let page = PageInfo::new("p", vec![date("first"), select("x"), date("second")]);
    let probe = PropertyValue::Date("second".to_string(), Some("z".to_string()));
    assert_eq!(page.find_property(&probe), Some("first".to_string()));
    assert_eq!(
        page.find_property(&PropertyValue::Select("nothing".to_string())),
        Some("x".to_string())
    );
    assert_eq!(page.find_property(&PropertyValue::Status("x".to_string())), None);
    assert_eq!(PageInfo::new("p", vec![]).find_property(&probe), None);
}

#[test]
fn find_by_name_returns_the_first_of_a_name() {
    let page = PageInfo::new("p", vec![date("first"), select("x"), date("second")]);
    assert_eq!(page.find_by_name("When"), Some(&date("first")));
    assert_eq!(page.find_by_name("Choice"), Some(&select("x")));
    assert_eq!(page.find_by_name("when"), None);
    assert_eq!(page.find_by_name(""), None);
}

#[test]
fn page_info_keeps_what_it_was_given() {
    let page = PageInfo::new("page-x", vec![select("x"), date("d")]);
    assert_eq!(page.get_id(), "page-x");
    assert_eq!(page.get_properties().len(), 2);
    assert_eq!(page.get_properties()[0], select("x"));
    assert_eq!(page.get_properties()[1].get_name(), "When");
}

#[test]
fn property_reads_id_name_and_value() {
    let property = select("Done");
    assert_eq!(property.get_id(), "s");
    assert_eq!(property.get_name(), "Choice");
    assert_eq!(property.get_property_value(), &PropertyValue::Select("Done".to_string()));
    assert_eq!(property.clone(), property);
}

#[test]
fn property_needs_a_value_and_an_id() {
    let doc = Json::parse("{\"type\":\"select\",\"select\":{\"name\":\"x\"}}").unwrap();
    assert_eq!(Property::new("n", &doc), Err(DecodeError::MissingField("id".to_string())));
    let doc = Json::parse("{\"id\":3,\"type\":\"select\",\"select\":{\"name\":\"x\"}}").unwrap();
    assert_eq!(Property::new("n", &doc), Err(DecodeError::WrongType("id".to_string())));
    let doc = Json::parse("{\"type\":\"nope\",\"nope\":{}}").unwrap();
    assert_eq!(
        Property::new("n", &doc),
        Err(DecodeError::UnknownPropertyKind("nope".to_string()))
    );
}

#[test]
fn page_parent_from_words() {
    assert_eq!(PageParent::new("page", "1"), PageParent::new_page("1"));
    assert_eq!(PageParent::new("database", "2"), PageParent::new_database("2"));
    assert_eq!(PageParent::new("data_source", "3"), PageParent::new_datasource("3"));
    assert_eq!(PageParent::new("anything", "4"), PageParent::new_datasource("4"));
    assert_eq!(PageParent::new("Page", "5"), PageParent::new_datasource("5"));
    assert_eq!(PageParent::new_page("1").get_type(), ParentType::PageId);
    assert_eq!(PageParent::new_database("1").get_type(), ParentType::DatabaseId);
    assert_eq!(PageParent::new_datasource("1").get_type(), ParentType::DataSourceId);
}

#[test]
fn parent_type_words_and_wire_names() {
    assert_eq!(ParentType::from("page"), ParentType::PageId);
    assert_eq!(ParentType::from("database"), ParentType::DatabaseId);
    assert_eq!(ParentType::from(""), ParentType::DataSourceId);
    for kind in [ParentType::PageId, ParentType::DatabaseId, ParentType::DataSourceId] {
        assert_eq!(ParentType::from_name(kind.as_str()), Some(kind));
    }
    assert_eq!(ParentType::PageId.as_str(), "page_id");
    assert_eq!(ParentType::DatabaseId.as_str(), "database_id");
    assert_eq!(ParentType::DataSourceId.as_str(), "data_source_id");
    assert_eq!(ParentType::from_name("page"), None);
}

#[test]
fn page_parent_document() {
    let parent = PageParent::new_database("db");
    let doc = parent.to_json();
    assert_eq!(
        doc,
        Json::object(vec![
            Member::new("type", Json::string("database_id")),
            Member::new("database_id", Json::string("db")),
            Member::new("data_source_id", Json::Null),
            Member::new("page_id", Json::Null),
        ])
    );
    assert_eq!(PageParent::decode(&doc), Ok(parent.clone()));
    assert_eq!(
        PageParent::decode(&Json::object_of("type", Json::string("workspace"))),
        Err(DecodeError::WrongType("type".to_string()))
    );
}

#[test]
fn page_create_body_document() {
    let body = PageCreateBody::new(PageParent::new_datasource("ds"), "Hello");
    let title = Json::object_of(
        "title",
        Json::array(vec![Json::object_of(
            "text",
            Json::object_of("content", Json::string("Hello")),
        )]),
    );
    assert_eq!(
        body.to_json(),
        Json::object(vec![
            Member::new("parent", PageParent::new_datasource("ds").to_json()),
            Member::new("properties", Json::object_of("Name", title)),
            Member::new("icon", Json::Null),
            Member::new("cover", Json::Null),
        ])
    );
    let request = create_page_request(("page", "pp"), "Hello");
    assert_eq!(request.get_method(), Method::Post);
    assert_eq!(request.get_endpoint(), "pages");
    assert_eq!(
        request.get_body().get("parent"),
        Some(&PageParent::new_page("pp").to_json())
    );
}

#[test]
fn page_update_body_document() {
    let properties = Json::object_of("Done", Json::object_of("checkbox", Json::Bool(true)));
    assert_eq!(
        PageUpdateBody::new(properties.clone()).to_json(),
        Json::object_of("properties", properties)
    );
}

#[test]
fn page_decodes_a_record() {
    let page = Page::decode(&Json::parse(PAGE).unwrap()).unwrap();
    assert_eq!(page.get_id(), "page-a");
    assert_eq!(page.get_url(), "https://example.org/page-a");
    assert!(page.is_archived());
    assert_eq!(page.get_parent(), &PageParent::decode(&PageParent::new_page("pp").to_json()).unwrap());
    assert_eq!(page.get_created_time(), Timestamp { seconds: 10, nanos: 0 });
    assert_eq!(page.get_last_edited_time(), Timestamp { seconds: 60, nanos: 0 });
    let properties = page.get_properties();
    assert_eq!(properties.len(), 1);
    assert_eq!(properties[0].get_name(), "Tags");
    assert_eq!(properties[0].get_id(), "a");
    assert_eq!(properties[0].get_property_value().get_value(), "x");
}

#[test]
fn page_refuses_a_wrong_shape() {
    let broken = |from: &str, to: &str| Page::decode(&Json::parse(&PAGE.replace(from, to)).unwrap());
    assert_eq!(
        broken("\"id\":\"page-a\",", ""),
        Err(DecodeError::MissingField("id".to_string()))
    );
    assert_eq!(
        broken("\"archived\":true", "\"archived\":\"yes\""),
        Err(DecodeError::WrongType("archived".to_string()))
    );
    assert_eq!(
        broken("1970-01-01T00:00:10Z", "ten past"),
        Err(DecodeError::WrongType("created_time".to_string()))
    );
    assert_eq!(
        broken("\"type\":\"select\"", "\"type\":\"bogus_kind\""),
        Err(DecodeError::UnknownPropertyKind("bogus_kind".to_string()))
    );
    assert_eq!(
        broken("\"cover\":{\"type\":\"external\"}", "\"cover\":{}"),
        Err(DecodeError::MissingField("type".to_string()))
    );
    assert_eq!(
        broken("\"icon\":{\"type\":\"emoji\",\"emoji\":\"x\"}", "\"icon\":null").map(|_| ()),
        Ok(())
    );
    assert_eq!(
        broken("\"properties\":{", "\"properties\":[],\"other\":{"),
        Err(DecodeError::WrongType("properties".to_string()))
    );
}
