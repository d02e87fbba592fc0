use notion::client::{unwrap, unwrap_parsed, url_for};
use notion::data_source::dto::response::QueryPageListResponse;
use notion::data_source::types::PropertyInfo;
use notion::errors::{ClientError, DecodeError, ValidationError};
use notion::json::{Json, Member};
use notion::types::{ErrorResponse, NotionResponse};

const PAGE: &str = "{\"object\":\"page\",\"id\":\"page-a\",\"archived\":false,\"in_trash\":false,\
\"parent\":{\"type\":\"data_source_id\",\"data_source_id\":\"ds\",\"database_id\":\"db\"},\
\"properties\":{\"Tags\":{\"id\":\"a\",\"type\":\"select\",\"select\":{\"name\":\"x\"}},\
\"When\":{\"id\":\"b\",\"type\":\"date\",\"date\":{\"start\":\"2025-01-01\",\"end\":null}}},\
\"url\":\"https://example.org/page-a\",\"public_url\":null,\
\"created_by\":{\"object\":\"user\",\"id\":\"u1\"},\"created_time\":\"2025-01-01T00:00:00.000Z\",\
\"last_edited_by\":{\"object\":\"user\",\"id\":\"u2\"},\"last_edited_time\":\"2025-01-02T00:00:00.000Z\"}";

fn list(has_more: &str, cursor: &str, results: &str) -> String {
    format!(
        "{{\"object\":\"list\",\"request_id\":\"r1\",\"has_more\":{},\"next_cursor\":{},\"results\":[{}]}}",
        has_more, cursor, results
    )
}

#[test]
fn list_response_with_more_pages() {
    let response = unwrap(200, &list("true", "\"abc\"", PAGE)).unwrap();
    assert_eq!(response.get_object(), "list");
    assert_eq!(response.get_request_id(), "r1");
    let pages = QueryPageListResponse::decode(response.get_data()).unwrap();
    assert!(pages.has_more());
    let cursor = pages.get_next_cursor().unwrap();
    assert_eq!(cursor, "abc");
    assert!(!cursor.is_empty());
    assert_eq!(pages.get_results().len(), 1);
}

#[test]
fn list_response_at_the_end() {
    let response = unwrap(200, &list("false", "null", "")).unwrap();
    let pages = QueryPageListResponse::decode(response.get_data()).unwrap();
    assert!(!pages.has_more());
    assert_eq!(pages.get_next_cursor(), None);
    assert_eq!(pages.get_pages().len(), 0);
}

#[test]
fn list_response_must_pair_the_cursor_with_the_flag() {
    let doc = Json::parse(&list("true", "null", "")).unwrap();
    assert_eq!(QueryPageListResponse::decode(&doc), Err(DecodeError::CursorMismatch));
    let doc = Json::parse(&list("false", "\"abc\"", "")).unwrap();
    assert_eq!(QueryPageListResponse::decode(&doc), Err(DecodeError::CursorMismatch));
    let doc = Json::parse("{\"has_more\":true,\"results\":[]}").unwrap();
    assert_eq!(QueryPageListResponse::decode(&doc), Err(DecodeError::CursorMismatch));
}

#[test]
fn list_response_refuses_a_wrong_shape() {
    let doc = Json::parse("{\"next_cursor\":null,\"results\":[]}").unwrap();
    assert_eq!(
        QueryPageListResponse::decode(&doc),
        Err(DecodeError::MissingField("has_more".to_string()))
    );
    let doc = Json::parse("{\"has_more\":false,\"next_cursor\":7,\"results\":[]}").unwrap();
    assert_eq!(
        QueryPageListResponse::decode(&doc),
        Err(DecodeError::WrongType("next_cursor".to_string()))
    );
    let doc = Json::parse("{\"has_more\":false,\"next_cursor\":null}").unwrap();
    assert_eq!(
        QueryPageListResponse::decode(&doc),
        Err(DecodeError::MissingField("results".to_string()))
    );
    let doc = Json::parse("{\"has_more\":false,\"results\":{}}").unwrap();
    assert_eq!(
        QueryPageListResponse::decode(&doc),
        Err(DecodeError::WrongType("results".to_string()))
    );
    let doc = Json::parse("{\"has_more\":false,\"results\":[{}]}").unwrap();
    assert_eq!(
        QueryPageListResponse::decode(&doc),
        Err(DecodeError::MissingField("id".to_string()))
    );
}

#[test]
fn get_pages_projects_in_order() {
    let second = PAGE.replace("\"page-a\"", "\"page-b\"");
    let both = format!("{},{}", PAGE, second);
    let doc = Json::parse(&list("false", "null", &both)).unwrap();
    let pages = QueryPageListResponse::decode(&doc).unwrap().get_pages();
    assert_eq!(pages.len(), 2);
    assert_eq!(pages[0].get_id(), "page-a");
    assert_eq!(pages[1].get_id(), "page-b");
    let names: Vec<&str> = pages[0].get_properties().iter().map(|p| p.get_name()).collect();
    assert_eq!(names, vec!["Tags", "When"]);
}

#[test]
fn unwrap_takes_the_envelope_off() {
    let response =
        unwrap(201, "{\"object\":\"page\",\"id\":\"p\",\"request_id\":\"r\",\"n\":[1]}").unwrap();
    assert_eq!(response.get_object(), "page");
    assert_eq!(response.get_request_id(), "r");
    assert_eq!(
        response.get_data(),
        &Json::object(vec![
            Member::new("id", Json::string("p")),
            Member::new("n", Json::array(vec![Json::Number("1".to_string())])),
        ])
    );
    assert_eq!(response.into_data().get("object"), None);
}

#[test]
fn unwrap_goes_by_the_status_and_not_by_the_shape() {
    let failure = "{\"object\":\"error\",\"status\":401,\"code\":\"unauthorized\",\"message\":\"no\"}";
    assert_eq!(unwrap(401, failure).unwrap_err(), ClientError::UnauthorizedError);
    assert_eq!(
        unwrap(200, failure).unwrap_err(),
        ClientError::DecodeError(DecodeError::MissingField("request_id".to_string()))
    );
    let success = "{\"object\":\"list\",\"request_id\":\"r\"}";
    assert!(unwrap(299, success).is_ok());
    assert_eq!(
        unwrap(300, success).unwrap_err(),
        ClientError::DecodeError(DecodeError::MissingField("status".to_string()))
    );
    assert_eq!(
        unwrap(199, success).unwrap_err(),
        ClientError::DecodeError(DecodeError::MissingField("status".to_string()))
    );
}

#[test]
fn unwrap_classifies_by_the_code() {
    let body = |code: &str| {
        format!(
            "{{\"object\":\"error\",\"status\":400,\"code\":\"{}\",\"message\":\"what happened\"}}",
            code
        )
    };
    assert_eq!(unwrap(400, &body("unauthorized")).unwrap_err(), ClientError::UnauthorizedError);
    assert_eq!(unwrap(400, &body("Unauthorized")).unwrap_err(), ClientError::UnauthorizedError);
    assert_eq!(unwrap(429, &body("rate_limited")).unwrap_err(), ClientError::RateLimitedError);
    assert_eq!(unwrap(429, &body("RATE_LIMITED")).unwrap_err(), ClientError::RateLimitedError);
    assert_eq!(
        unwrap(404, &body("object_not_found")).unwrap_err(),
        ClientError::InternalError("what happened".to_string())
    );
    assert_eq!(
        unwrap(500, &body("")).unwrap_err(),
        ClientError::InternalError("what happened".to_string())
    );
}

#[test]
fn unwrap_reports_malformed_text_apart() {
    for status in [200, 404] {
        match unwrap(status, "<html>") {
            Err(ClientError::DecodeError(DecodeError::MalformedJson(_))) => {}
            other => panic!("unexpected: {:?}", other),
        }
    }
}

#[test]
fn unwrap_parsed_needs_an_object() {
    assert_eq!(
        unwrap_parsed(200, &Json::array(vec![])).unwrap_err(),
        ClientError::DecodeError(DecodeError::MissingField("object".to_string()))
    );
    assert_eq!(
        unwrap_parsed(200, &Json::object_of("object", Json::Null)).unwrap_err(),
        ClientError::DecodeError(DecodeError::WrongType("object".to_string()))
    );
}

#[test]
fn error_response_reads_its_four_members() {
    let doc = Json::parse(
        "{\"object\":\"error\",\"status\":404,\"code\":\"object_not_found\",\"message\":\"gone\"}",
    )
    .unwrap();
    let failure = ErrorResponse::decode(&doc).unwrap();
    assert_eq!(failure.get_status(), 404);
    assert_eq!(failure.get_code(), "object_not_found");
    assert_eq!(failure.get_message(), "gone");
    assert_eq!(failure, ErrorResponse::new(404, "object_not_found", "gone"));
}

#[test]
fn error_response_refuses_a_wrong_status() {
    let with = |status: &str| {
        Json::parse(&format!(
            "{{\"object\":\"error\",\"status\":{},\"code\":\"c\",\"message\":\"m\"}}",
            status
        ))
        .unwrap()
    };
    let wrong = Err(DecodeError::WrongType("status".to_string()));
    assert_eq!(ErrorResponse::decode(&with("\"404\"")), wrong);
    assert_eq!(ErrorResponse::decode(&with("404.5")), wrong);
    assert_eq!(ErrorResponse::decode(&with("-4")), wrong);
    assert_eq!(ErrorResponse::decode(&with("65536")), wrong);
    assert_eq!(ErrorResponse::decode(&with("65535")).unwrap().get_status(), 65535);
    assert_eq!(
        ErrorResponse::decode(&Json::parse("{\"status\":400,\"object\":\"error\"}").unwrap()),
        Err(DecodeError::MissingField("code".to_string()))
    );
}

#[test]
fn client_error_from_an_error_response() {
    assert_eq!(
        ClientError::from(ErrorResponse::new(401, "UNAUTHORIZED", "m")),
        ClientError::UnauthorizedError
    );
    assert_eq!(
        ClientError::from(ErrorResponse::new(429, "rate_limited", "m")),
        ClientError::RateLimitedError
    );
    assert_eq!(
        ClientError::from(ErrorResponse::new(400, "validation_error", "bad body")),
        ClientError::InternalError("bad body".to_string())
    );
}

#[test]
fn errors_say_what_went_wrong() {
    assert_eq!(ClientError::UnauthorizedError.to_string(), "Unauthorized Error");
    assert_eq!(ClientError::RateLimitedError.to_string(), "RateLimited Error");
    assert_eq!(ClientError::InternalError("boom".to_string()).to_string(), "Internal error: boom");
    assert_eq!(
        ClientError::ReqwestError("timed out".to_string()).to_string(),
        "Reqwest error: timed out"
    );
    assert_eq!(
        ClientError::DecodeError(DecodeError::MissingField("id".to_string())).to_string(),
        "Decode error: missing field: id"
    );
    assert_eq!(
        ClientError::ValidationError(ValidationError::UnsupportedWriteKind(PropertyInfo::Rollup))
            .to_string(),
        "Validation error: unsupported write kind: rollup"
    );
    assert_eq!(ValidationError::NotAnAndFilter.to_string(), "not an and filter");
    assert_eq!(ValidationError::NotAnOrFilter.to_string(), "not an or filter");
    assert_eq!(DecodeError::WrongType("x".to_string()).to_string(), "wrong type: x");
    assert_eq!(
        DecodeError::UnknownPropertyKind("k".to_string()).to_string(),
        "unknown property kind: k"
    );
    assert_eq!(DecodeError::MalformedJson("eof".to_string()).to_string(), "malformed JSON: eof");
    assert_eq!(DecodeError::MissingFormulaString.to_string(), "missing formula string");
    assert_eq!(DecodeError::EmptyTitle.to_string(), "empty title");
    assert_eq!(DecodeError::CursorMismatch.to_string(), "cursor mismatch");
}

#[test]
fn notion_response_hands_out_its_parts() {
    let response = NotionResponse::new("list", "r", 7u8);
    assert_eq!(response.get_object(), "list");
    assert_eq!(response.get_request_id(), "r");
    assert_eq!(*response.get_data(), 7);
    assert_eq!(response.into_data(), 7);
}

#[test]
fn url_for_joins_with_a_slash() {
    assert_eq!(url_for("https://api.notion.com/v1", "pages"), "https://api.notion.com/v1/pages");
    assert_eq!(url_for("", ""), "/");
}
