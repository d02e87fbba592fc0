use notion::client::Request;
use notion::data_source::dto::request::{PropertyFilters, QueryBody, Sort, SortDirection};
use notion::data_source::{get_data_source_request, query_pages_request};
use notion::database::get_database_request;
use notion::json::{Json, Member};
use notion::types::Method;

fn date_filter(key: &str, time: &str) -> Json {
    Json::object(vec![
        Member::new("property", Json::string("날짜")),
        Member::new("date", Json::object_of(key, Json::string(time))),
    ])
}

fn and_filter(after: &str, before: &str) -> Json {
    Json::object_of(
        "and",
        Json::array(vec![date_filter("after", after), date_filter("before", before)]),
    )
}

fn sort_doc(property: &str, direction: &str) -> Json {
    Json::object(vec![
        Member::new("property", Json::string(property)),
        Member::new("direction", Json::string(direction)),
    ])
}

fn check_query(request: &Request, endpoint: &str, filter: &Json) {
    assert_eq!(request.get_method(), Method::Post);
    assert_eq!(request.get_endpoint(), endpoint);
    let body = request.get_body();
    assert_eq!(body.as_object().unwrap().len(), 2);
    assert_eq!(body.get("filter"), Some(filter));
    assert_eq!(body.get("sorts"), Some(&Json::array(vec![sort_doc("날짜", "ascending")])));
}

#[test]
fn base_test_get_db() {
    let request = get_database_request("{database_id}");
    assert_eq!(request.get_method(), Method::Get);
    assert_eq!(request.get_endpoint(), "databases/{database_id}");
    assert_eq!(request.get_body(), &Json::object(vec![]));
}

#[test]
fn database_test_get_db() {
    let request = get_database_request("{database_id}");
    assert_eq!(request.get_method().as_str(), "GET");
    assert_eq!(request.get_endpoint(), "databases/{database_id}");
    assert_eq!(request.get_body().as_object().map(|members| members.len()), Some(0));
}

#[test]
fn base_test_get_ds() {
    let request = get_data_source_request("{data_source_id}");
    assert_eq!(request.get_method(), Method::Get);
    assert_eq!(request.get_endpoint(), "data_sources/{data_source_id}");
    assert_eq!(request.get_body(), &Json::object(vec![]));
}

#[test]
fn data_source_test_get_ds() {
    let request = get_data_source_request("{data_source_id}");
    assert_eq!(request.get_method().as_str(), "GET");
    assert_eq!(request.get_endpoint(), "data_sources/{data_source_id}");
}

#[test]
fn base_test_query() {
    let filter = and_filter("2025-11-07T00:00:00+09:00", "2025-11-08T00:00:00+09:00");
    let request =
        query_pages_request("{data_source_id}", vec![], filter.clone(), vec![("날짜", "asc")]);
    check_query(&request, "data_sources/{data_source_id}/query", &filter);
}

#[test]
fn data_source_test_query() {
    let filter = and_filter("2025-12-15T00:00:00+09:00", "2025-12-16T00:00:00+09:00");
    let request = query_pages_request(
        "{data_source_id}",
        vec!["title"],
        filter.clone(),
        vec![("날짜", "asc")],
    );
    check_query(
        &request,
        "data_sources/{data_source_id}/query?filter_properties=title",
        &filter,
    );
}

#[test]
fn sort_direction_from_words() {
    assert_eq!(SortDirection::from("asc"), SortDirection::Ascending);
    assert_eq!(SortDirection::from("ASC"), SortDirection::Ascending);
    assert_eq!(SortDirection::from("Asc"), SortDirection::Ascending);
    assert_eq!(SortDirection::from("desc"), SortDirection::Descending);
    assert_eq!(SortDirection::from("DESC"), SortDirection::Descending);
}

#[test]
fn sort_direction_falls_back_to_descending() {
    for word in ["", "ascending", "up", "as", "ascc", " asc", "asc ", "dsc", "ａｓｃ"] {
        assert_eq!(SortDirection::from(word), SortDirection::Descending);
    }
}

#[test]
fn sort_direction_wire_names() {
    assert_eq!(SortDirection::Ascending.as_str(), "ascending");
    assert_eq!(SortDirection::Descending.as_str(), "descending");
}

#[test]
fn sort_keeps_what_it_was_given() {
    let sort = Sort::new("Name", SortDirection::Ascending);
    assert_eq!(sort.get_property(), "Name");
    assert_eq!(sort.get_direction(), SortDirection::Ascending);
    assert_eq!(sort.to_json(), sort_doc("Name", "ascending"));
    let sort = Sort::from(&("Due", "nonsense"));
    assert_eq!(sort.get_property(), "Due");
    assert_eq!(sort.get_direction(), SortDirection::Descending);
    assert_eq!(sort.to_json(), sort_doc("Due", "descending"));
}

#[test]
fn query_body_has_filter_and_sorts() {
    let filter = Json::object_of("property", Json::string("Done"));
    let body = QueryBody::new(
        filter.clone(),
        vec![Sort::new("a", SortDirection::Descending), Sort::new("b", SortDirection::Ascending)],
    );
    assert_eq!(
        body.to_json(),
        Json::object(vec![
            Member::new("filter", filter),
            Member::new(
                "sorts",
                Json::array(vec![sort_doc("a", "descending"), sort_doc("b", "ascending")])
            ),
        ])
    );
    let plain = QueryBody::new(Json::Null, vec![]);
    assert_eq!(
        plain.to_json(),
        Json::object(vec![
            Member::new("filter", Json::Null),
            Member::new("sorts", Json::array(vec![])),
        ])
    );
}

#[test]
fn as_query_repeats_the_parameter() {
    assert_eq!(PropertyFilters::as_query(vec![]), "");
    assert_eq!(PropertyFilters::as_query(vec!["title"]), "filter_properties=title");
    assert_eq!(
        PropertyFilters::as_query(vec!["title", "iAk%40", ""]),
        "filter_properties=title&filter_properties=iAk%40&filter_properties="
    );
}

#[test]
fn query_endpoint_names_the_chosen_properties() {
    let request = query_pages_request("ds", vec!["a", "b"], Json::Null, vec![]);
    assert_eq!(
        request.get_endpoint(),
        "data_sources/ds/query?filter_properties=a&filter_properties=b"
    );
    let request = query_pages_request("ds", vec![], Json::Null, vec![("x", "DESC"), ("y", "Asc")]);
    assert_eq!(request.get_endpoint(), "data_sources/ds/query");
    assert_eq!(
        request.get_body().get("sorts"),
        Some(&Json::array(vec![sort_doc("x", "descending"), sort_doc("y", "ascending")]))
    );
}
