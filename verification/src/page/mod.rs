use vstd::prelude::*;
use vstd::string::StringExecFns;
use crate::client::{Request, RequestView};
use crate::json::{member, Json, JsonView};
use crate::page::dto::request::{
    create_document, title_properties, PageCreateBody, PageCreateBodyView, PageUpdateBody,
};
use crate::page::types::{parent_of, parent_type_of, PageParent};
use crate::errors::ValidationError;
use crate::types::{encode_value, Method, PropertyValue};

pub mod dto;
pub mod types;

verus! {

/// The path under which a page is changed.
pub open spec fn page_endpoint(page_id: Seq<char>) -> Seq<char> {
    "pages/"@ + page_id
}

/// The request that creates a page with the given title. The parent is a
/// word and an id: `page` a page, `database` a database, any other word a
/// data source.
pub fn create_page_request(parent: (&str, &str), title: &str) -> (res: Request)
    ensures
        res@ == (RequestView {
            method: Method::Post,
            endpoint: "pages"@,
            body: create_document(
                PageCreateBodyView {
                    parent: parent_of(parent_type_of(parent.0@), parent.1@),
                    properties: title_properties(title@),
                    icon: None,
                    cover: None,
                },
            ),
        }),
{
    let parent = PageParent::new(parent.0, parent.1);
    let body = PageCreateBody::new(parent, title);
    Request::new(Method::Post, String::from_str("pages"), body.to_json())
}

/// The request that changes properties of a page: each member of
/// `properties` names a property and holds what is written to it.
pub fn update_page_request(page_id: &str, properties: Json) -> (res: Request)
    ensures
        res@ == (RequestView {
            method: Method::Patch,
            endpoint: page_endpoint(page_id@),
            body: JsonView::Object(seq![member("properties"@, properties@)]),
        }),
{
    let mut endpoint = String::from_str("pages/");
    endpoint.append(page_id);
    let body = PageUpdateBody::new(properties);
    Request::new(Method::Patch, endpoint, body.to_json())
}

/// The request that writes one value to one property of a page: the
/// value in the shape in which its kind is written, under the name of the
/// property. A value of a kind that cannot be written gives no request.
pub fn write_property_request(page_id: &str, name: &str, value: &PropertyValue) -> (res: Result<
    Request,
    ValidationError,
>)
    ensures
        match encode_value(value@) {
            Ok(written) => res matches Ok(request) && request@ == (RequestView {
                method: Method::Patch,
                endpoint: page_endpoint(page_id@),
                body: JsonView::Object(
                    seq![member("properties"@, JsonView::Object(seq![member(name@, written)]))],
                ),
            }),
            Err(error) => res matches Err(refused) && refused == error,
        },
{
    match value.encode_for_write() {
        Err(error) => Err(error),
        Ok(written) => Ok(update_page_request(page_id, Json::object_of(name, written))),
    }
}

} // verus!
