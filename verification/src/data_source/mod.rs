use vstd::prelude::*;
use vstd::string::StringExecFns;
use crate::client::{empty_body, Request, RequestView};
use crate::data_source::dto::request::{
    direction_of, query_document, selection_query, PropertyFilters, QueryBody, Sort, SortView,
};
use crate::json::{Json, JsonView};
use crate::text::views;
use crate::types::Method;

pub mod dto;
pub mod filter;
pub mod types;

verus! {

/// The path under which a data source is described.
pub open spec fn data_source_endpoint(data_source_id: Seq<char>) -> Seq<char> {
    "data_sources/"@ + data_source_id
}

/// The path under which the pages of a data source are queried. Where
/// properties are chosen, the query string that asks for them follows
/// after `?`; where none is chosen, nothing follows.
pub open spec fn query_endpoint(data_source_id: Seq<char>, properties: Seq<Seq<char>>) -> Seq<
    char,
> {
    if properties.len() == 0 {
        "data_sources/"@ + data_source_id + "/query"@
    } else {
        "data_sources/"@ + data_source_id + "/query"@ + "?"@ + selection_query(properties)
    }
}

/// The keys of a sort that pairs of words ask for: in each pair the
/// property, and `asc` or `desc` for the direction.
pub open spec fn sorts_of(pairs: Seq<(&str, &str)>) -> Seq<SortView> {
    Seq::new(
        pairs.len(),
        |i: int| SortView { property: pairs[i].0@, direction: direction_of(pairs[i].1@) },
    )
}

/// The request that asks for the description of a data source.
pub fn get_data_source_request(data_source_id: &str) -> (res: Request)
    ensures
        res@ == (RequestView {
            method: Method::Get,
            endpoint: data_source_endpoint(data_source_id@),
            body: JsonView::Object(Seq::empty()),
        }),
{
    let mut endpoint = String::from_str("data_sources/");
    endpoint.append(data_source_id);
    Request::new(Method::Get, endpoint, empty_body())
}

/// The request that queries the pages of a data source: only the named
/// properties are asked for, or all where none is named; the filter is
/// passed on as it is; each pair of `sorts` is a property and `asc` or
/// `desc`.
pub fn query_pages_request(
    data_source_id: &str,
    properties: Vec<&str>,
    filters: Json,
    sorts: Vec<(&str, &str)>,
) -> (res: Request)
    ensures
        res@ == (RequestView {
            method: Method::Post,
            endpoint: query_endpoint(data_source_id@, views(properties@)),
            body: query_document(filters@, sorts_of(sorts@)),
        }),
{
    let mut endpoint = String::from_str("data_sources/");
    endpoint.append(data_source_id);
    endpoint.append("/query");
    if properties.len() > 0 {
        let chosen = PropertyFilters::as_query(properties);
        endpoint.append("?");
        endpoint.append(chosen.as_str());
    }
    let mut keys: Vec<Sort> = Vec::new();
    let mut i: usize = 0;
    while i < sorts.len()
        invariant
            i <= sorts@.len(),
            keys@.len() == i,
            forall|j: int|
                0 <= j < i ==> keys@[j]@ == (SortView {
                    property: sorts@[j].0@,
                    direction: direction_of(sorts@[j].1@),
                }),
        decreases sorts@.len() - i,
    {
        keys.push(Sort::from(&sorts[i]));
        i += 1;
    }
    assert(views(keys@) =~= sorts_of(sorts@));
    let body = QueryBody::new(filters, keys);
    Request::new(Method::Post, endpoint, body.to_json())
}

} // verus!
