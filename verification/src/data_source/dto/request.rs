use vstd::prelude::*;
use vstd::std_specs::convert::FromSpecImpl;
use vstd::string::StringExecFns;
use crate::json::{member, member_views, Json, JsonView, Member};
use crate::text::{eq_ignore_ascii_case, join, lower, views};

verus! {

/// The direction in which a query sorts by a property.
#[derive(Debug, Clone, Copy, PartialEq, Eq, Structural)]
pub enum SortDirection {
    Ascending,
    Descending,
}

/// The direction that a word asks for: ascending for `asc`, in capitals or
/// not; descending for `desc` and, by rule, for every other word.
pub open spec fn direction_of(word: Seq<char>) -> SortDirection {
    if lower(word) == "asc"@ {
        SortDirection::Ascending
    } else {
        SortDirection::Descending
    }
}

/// The word by which the wire format calls a direction.
pub open spec fn direction_name(direction: SortDirection) -> Seq<char> {
    match direction {
        SortDirection::Ascending => "ascending"@,
        SortDirection::Descending => "descending"@,
    }
}

/// A word that is neither `asc` nor `desc`, capitals aside, asks for the
/// descending direction.
pub proof fn lemma_other_words_sort_descending(word: Seq<char>)
    requires
        lower(word) != "asc"@,
        lower(word) != "desc"@,
    ensures
        direction_of(word) == SortDirection::Descending,
{
}

/// `asc` and `desc`, in capitals or not, ask for the ascending and for the
/// descending direction.
pub proof fn lemma_known_words_sort_as_named(word: Seq<char>)
    ensures
        lower(word) == "asc"@ ==> direction_of(word) == SortDirection::Ascending,
        lower(word) == "desc"@ ==> direction_of(word) == SortDirection::Descending,
{
    reveal_strlit("asc");
    reveal_strlit("desc");
    assert("asc"@.len() != "desc"@.len());
}

impl From<&str> for SortDirection {
    fn from(s: &str) -> (res: SortDirection) {
        proof {
            lemma_lower_of_lower_case_word();
        }
        if eq_ignore_ascii_case(s, "asc") {
            SortDirection::Ascending
        } else {
            SortDirection::Descending
        }
    }
}

impl FromSpecImpl<&str> for SortDirection {
    open spec fn obeys_from_spec() -> bool {
        true
    }

    open spec fn from_spec(s: &str) -> SortDirection {
        direction_of(s@)
    }
}

/// `asc` holds no capital: lowering it changes nothing.
pub proof fn lemma_lower_of_lower_case_word()
    ensures
        lower("asc"@) == "asc"@,
{
    reveal_strlit("asc");
    assert(lower("asc"@) =~= "asc"@);
}

impl SortDirection {
    /// The word by which the wire format calls the direction.
    pub fn as_str(&self) -> (res: &'static str)
        ensures
            res@ == direction_name(*self),
    {
        match self {
            SortDirection::Ascending => "ascending",
            SortDirection::Descending => "descending",
        }
    }
}

/// One key of a sort: a property, and the direction in which to sort by it.
#[derive(Debug, PartialEq, Eq)]
pub struct Sort {
    property: String,
    direction: SortDirection,
}

/// The mathematical value of a [`Sort`].
pub struct SortView {
    pub property: Seq<char>,
    pub direction: SortDirection,
}

impl View for Sort {
    type V = SortView;

    closed spec fn view(&self) -> SortView {
        SortView { property: self.property@, direction: self.direction }
    }
}

/// The document that asks for one key of a sort.
pub open spec fn sort_document(sort: SortView) -> JsonView {
    JsonView::Object(
        seq![
            member("property"@, JsonView::Str(sort.property)),
            member("direction"@, JsonView::Str(direction_name(sort.direction))),
        ],
    )
}

/// The documents that ask for the keys of a sort, in their order.
pub open spec fn sort_documents(sorts: Seq<SortView>) -> Seq<JsonView> {
    Seq::new(sorts.len(), |i: int| sort_document(sorts[i]))
}

/// The body of a query: the filter as it was given, and the keys of the
/// sort.
pub open spec fn query_document(filter: JsonView, sorts: Seq<SortView>) -> JsonView {
    JsonView::Object(
        seq![
            member("filter"@, filter),
            member("sorts"@, JsonView::Array(sort_documents(sorts))),
        ],
    )
}

impl Sort {
    /// A key of a sort: by `property`, in the given direction.
    pub fn new(property: &str, direction: SortDirection) -> (res: Sort)
        ensures
            res@ == (SortView { property: property@, direction }),
    {
        Sort { property: String::from_str(property), direction }
    }

    /// A key of a sort from a pair of words: the property, and `asc` or
    /// `desc` for the direction.
    pub fn from(value: &(&str, &str)) -> (res: Sort)
        ensures
            res@ == (SortView { property: value.0@, direction: direction_of(value.1@) }),
    {
        let direction: SortDirection = SortDirection::from(value.1);
        Sort::new(value.0, direction)
    }

    /// The property to sort by.
    pub fn get_property(&self) -> (res: &str)
        ensures
            res@ == self@.property,
    {
        self.property.as_str()
    }

    /// The direction in which to sort.
    pub fn get_direction(&self) -> (res: SortDirection)
        ensures
            res == self@.direction,
    {
        self.direction
    }

    /// The document that asks for this key of a sort.
    pub fn to_json(&self) -> (res: Json)
        ensures
            res@ == sort_document(self@),
    {
        let mut members: Vec<Member> = Vec::new();
        members.push(Member::new("property", Json::string(self.property.as_str())));
        members.push(Member::new("direction", Json::string(self.direction.as_str())));
        assert(member_views(members@) =~= seq![
            member("property"@, JsonView::Str(self@.property)),
            member("direction"@, JsonView::Str(direction_name(self@.direction))),
        ]);
        Json::object(members)
    }
}

/// The body of a query for the pages of a data source.
#[derive(Debug, PartialEq, Eq)]
pub struct QueryBody {
    filter: Json,
    sorts: Vec<Sort>,
}

/// The mathematical value of a [`QueryBody`].
pub struct QueryBodyView {
    pub filter: JsonView,
    pub sorts: Seq<SortView>,
}

impl View for QueryBody {
    type V = QueryBodyView;

    closed spec fn view(&self) -> QueryBodyView {
        QueryBodyView { filter: self.filter@, sorts: views(self.sorts@) }
    }
}

impl QueryBody {
    /// The body of a query with the given filter and keys of the sort. The
    /// filter is passed on as it is: whether its operators fit the kinds of
    /// the properties is for the remote service to say.
    pub fn new(filter: Json, sorts: Vec<Sort>) -> (res: QueryBody)
        ensures
            res@ == (QueryBodyView { filter: filter@, sorts: views(sorts@) }),
    {
        QueryBody { filter, sorts }
    }

    /// The document that is sent as the body of the query.
    pub fn to_json(&self) -> (res: Json)
        ensures
            res@ == query_document(self@.filter, self@.sorts),
    {
        let mut keys: Vec<Json> = Vec::new();
        let mut i: usize = 0;
        while i < self.sorts.len()
            invariant
                i <= self.sorts@.len(),
                keys@.len() == i,
                forall|j: int| 0 <= j < i ==> keys@[j]@ == sort_document(self.sorts@[j]@),
            decreases self.sorts@.len() - i,
        {
            keys.push(self.sorts[i].to_json());
            i += 1;
        }
        assert(views(keys@) =~= sort_documents(views(self.sorts@)));
        let mut members: Vec<Member> = Vec::new();
        members.push(Member::new("filter", self.filter.clone()));
        members.push(Member::new("sorts", Json::array(keys)));
        assert(member_views(members@) =~= seq![
            member("filter"@, self@.filter),
            member("sorts"@, JsonView::Array(sort_documents(self@.sorts))),
        ]);
        Json::object(members)
    }
}

/// The choice of the properties that a query hands back.
pub struct PropertyFilters;

/// The query parameter that asks for one property.
pub open spec fn property_parameter(name: Seq<char>) -> Seq<char> {
    "filter_properties="@ + name
}

/// The query string that asks for the named properties alone: one
/// parameter for each name, in their order, with `&` between them. No name
/// gives the empty string, which asks for every property.
pub open spec fn selection_query(names: Seq<Seq<char>>) -> Seq<char> {
    join(Seq::new(names.len(), |i: int| property_parameter(names[i])), "&"@)
}

impl PropertyFilters {
    /// The query string that asks for the named properties alone.
    pub fn as_query(properties: Vec<&str>) -> (res: String)
        ensures
            res@ == selection_query(views(properties@)),
    {
        let ghost parameters = Seq::new(
            views(properties@).len(),
            |i: int| property_parameter(views(properties@)[i]),
        );
        let mut out = String::new();
        let mut i: usize = 0;
        while i < properties.len()
            invariant
                i <= properties@.len(),
                parameters.len() == properties@.len(),
                forall|j: int|
                    0 <= j < properties@.len() ==> parameters[j] == property_parameter(
                        properties@[j]@,
                    ),
                out@ == join(parameters.subrange(0, i as int), "&"@),
            decreases properties@.len() - i,
        {
            let ghost after = parameters.subrange(0, i as int + 1);
            assert(after.drop_last() =~= parameters.subrange(0, i as int));
            assert(after.last() == parameters[i as int]);
            if i > 0 {
                out.append("&");
            }
            out.append("filter_properties=");
            out.append(properties[i]);
            assert(out@ =~= join(after, "&"@));
            i += 1;
        }
        assert(parameters.subrange(0, properties@.len() as int) =~= parameters);
        out
    }
}

} // verus!
