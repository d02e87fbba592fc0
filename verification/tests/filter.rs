use notion::data_source::filter::{CheckboxFilter, DateFilter, FilterPart};
use notion::errors::{ClientError, ValidationError};
use notion::json::{Json, Member};

fn date(after: Option<&str>, before: Option<&str>) -> DateFilter {
    DateFilter {
        equals: None,
        this_week: false,
        before: before.map(|text| text.to_string()),
        after: after.map(|text| text.to_string()),
    }
}

#[test]
fn new_and_starts_empty() {
    let node = FilterPart::new_and();
    assert_eq!(node.get_and().len(), 0);
    assert_eq!(node.to_json(), Json::object_of("and", Json::array(vec![])));
    assert_eq!(FilterPart::new_or().to_json(), Json::object_of("or", Json::array(vec![])));
}

#[test]
fn add_and_filter_appends_in_order() {
    let mut node = FilterPart::new_and();
    assert_eq!(node.add_and_filter(FilterPart::new_filter("a")), Ok(()));
    assert_eq!(node.add_and_filter(FilterPart::new_filter("b")), Ok(()));
    assert_eq!(node.get_and().len(), 2);
    assert_eq!(node.get_and()[0], FilterPart::new_filter("a"));
    assert_eq!(node.get_and()[1], FilterPart::new_filter("b"));
}

#[test]
fn add_and_filter_refuses_other_nodes() {
    let refused = Err(ClientError::ValidationError(ValidationError::NotAnAndFilter));
    let mut or = FilterPart::new_or();
    assert_eq!(or.add_and_filter(FilterPart::new_filter("a")), refused);
    assert_eq!(or, FilterPart::new_or());
    let mut leaf = FilterPart::new_filter("x");
    assert_eq!(leaf.add_and_filter(FilterPart::new_filter("a")), refused);
    assert_eq!(leaf, FilterPart::new_filter("x"));
    let mut raw = FilterPart::new_raw(Json::Null);
    assert_eq!(raw.add_and_filter(FilterPart::new_filter("a")), refused);
    assert_eq!(raw, FilterPart::new_raw(Json::Null));
}

#[test]
fn add_or_filter_refuses_other_nodes() {
    let refused = Err(ClientError::ValidationError(ValidationError::NotAnOrFilter));
    let mut and = FilterPart::new_and();
    assert_eq!(and.add_or_filter(FilterPart::new_filter("a")), refused);
    assert_eq!(and, FilterPart::new_and());
    let mut leaf = FilterPart::new_filter("x");
    assert_eq!(leaf.add_or_filter(FilterPart::new_filter("a")), refused);
    let mut or = FilterPart::new_or();
    assert_eq!(or.add_or_filter(FilterPart::new_filter("a")), Ok(()));
    assert_eq!(
        or.to_json(),
        Json::object_of(
            "or",
            Json::array(vec![Json::object_of("property", Json::string("a"))])
        )
    );
}

#[test]
fn leaf_documents() {
    assert_eq!(
        FilterPart::new_filter("Done").to_json(),
        Json::object_of("property", Json::string("Done"))
    );
    assert_eq!(
        FilterPart::new_checkbox_filter("Done", true).to_json(),
        Json::object(vec![
            Member::new("property", Json::string("Done")),
            Member::new("checkbox", Json::object_of("equals", Json::Bool(true))),
        ])
    );
    assert_eq!(
        FilterPart::new_date_filter("Due", date(Some("2025-11-07T00:00:00+09:00"), None)).to_json(),
        Json::object(vec![
            Member::new("property", Json::string("Due")),
            Member::new(
                "date",
                Json::object_of("after", Json::string("2025-11-07T00:00:00+09:00"))
            ),
        ])
    );
    let raw = Json::object_of("anything", Json::array(vec![Json::Null]));
    assert_eq!(FilterPart::new_raw(raw.clone()).to_json(), raw);
}

#[test]
fn date_filter_document_lists_what_is_set() {
    let all = DateFilter {
        equals: Some("e".to_string()),
        this_week: true,
        before: Some("b".to_string()),
        after: Some("a".to_string()),
    };
    assert_eq!(
        all.to_json(),
        Json::object(vec![
            Member::new("equals", Json::string("e")),
            Member::new("this_week", Json::object(vec![])),
            Member::new("before", Json::string("b")),
            Member::new("after", Json::string("a")),
        ])
    );
    assert_eq!(date(None, None).to_json(), Json::object(vec![]));
    let week = DateFilter { equals: None, this_week: true, before: None, after: None };
    assert_eq!(week.to_json(), Json::object_of("this_week", Json::object(vec![])));
    assert_eq!(week.clone(), week);
    assert_eq!(
        CheckboxFilter { equals: false }.to_json(),
        Json::object_of("equals", Json::Bool(false))
    );
}

#[test]
fn nodes_nest_to_any_depth() {
    let mut inner = FilterPart::new_or();
    inner.add_or_filter(FilterPart::new_checkbox_filter("a", false)).unwrap();
    inner.add_or_filter(FilterPart::new_and()).unwrap();
    let mut outer = FilterPart::new_and();
    outer.add_and_filter(FilterPart::new_filter("p")).unwrap();
    outer.add_and_filter(inner).unwrap();
    assert_eq!(
        outer.to_json(),
        Json::object_of(
            "and",
            Json::array(vec![
                Json::object_of("property", Json::string("p")),
                Json::object_of(
                    "or",
                    Json::array(vec![
                        Json::object(vec![
                            Member::new("property", Json::string("a")),
                            Member::new("checkbox", Json::object_of("equals", Json::Bool(false))),
                        ]),
                        Json::object_of("and", Json::array(vec![])),
                    ])
                ),
            ])
        )
    );
    let mut deep = FilterPart::new_filter("leaf");
    for _ in 0..200 {
        let mut next = FilterPart::new_and();
        next.add_and_filter(deep).unwrap();
        deep = next;
    }
    let mut doc = deep.to_json();
    for _ in 0..200 {
        let below = doc.get("and").unwrap().as_array().unwrap();
        assert_eq!(below.len(), 1);
        doc = below[0].clone();
    }
    assert_eq!(doc, Json::object_of("property", Json::string("leaf")));
}
