use vstd::prelude::*;
use vstd::string::StringExecFns;
use crate::client::{empty_body, Request, RequestView};
use crate::json::JsonView;
use crate::types::Method;

pub mod dto;
pub mod types;

verus! {

/// The path under which a database is described.
pub open spec fn database_endpoint(database_id: Seq<char>) -> Seq<char> {
    "databases/"@ + database_id
}

/// The request that asks for the description of a database.
pub fn get_database_request(database_id: &str) -> (res: Request)
    ensures
        res@ == (RequestView {
            method: Method::Get,
            endpoint: database_endpoint(database_id@),
            body: JsonView::Object(Seq::empty()),
        }),
{
    let mut endpoint = String::from_str("databases/");
    endpoint.append(database_id);
    Request::new(Method::Get, endpoint, empty_body())
}

} // verus!
