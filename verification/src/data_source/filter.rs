use vstd::prelude::*;
use vstd::string::StringExecFns;
use crate::errors::{ClientError, ClientErrorView, ValidationError};
use crate::json::{member, member_views, Json, JsonView, Member, MemberView};
use crate::text::{clone_optional, option_view, views};

verus! {

/// A condition on a checkbox: that it is ticked, or that it is not.
#[derive(Debug, Clone, Copy, PartialEq, Eq, Structural)]
pub struct CheckboxFilter {
    pub equals: bool,
}

/// A condition on a date. Each time is the text that the wire carries.
/// More than one part may be set; the remote service says what it makes of
/// that.
#[derive(Debug, PartialEq, Eq)]
pub struct DateFilter {
    pub equals: Option<String>,
    pub this_week: bool,
    pub before: Option<String>,
    pub after: Option<String>,
}

/// The mathematical value of a [`DateFilter`].
pub struct DateFilterView {
    pub equals: Option<Seq<char>>,
    pub this_week: bool,
    pub before: Option<Seq<char>>,
    pub after: Option<Seq<char>>,
}

impl View for DateFilter {
    type V = DateFilterView;

    open spec fn view(&self) -> DateFilterView {
        DateFilterView {
            equals: option_view(self.equals),
            this_week: self.this_week,
            before: option_view(self.before),
            after: option_view(self.after),
        }
    }
}

/// The member that holds a text under `key`, where there is a text.
pub open spec fn text_member(key: Seq<char>, text: Option<Seq<char>>) -> Seq<MemberView> {
    match text {
        Some(text) => seq![member(key, JsonView::Str(text))],
        None => Seq::empty(),
    }
}

/// The document of a condition on a date: a member for each part that is
/// set, in the order `equals`, `this_week`, `before`, `after`.
pub open spec fn date_filter_document(filter: DateFilterView) -> JsonView {
    JsonView::Object(
        text_member("equals"@, filter.equals) + (if filter.this_week {
            seq![member("this_week"@, JsonView::Object(Seq::empty()))]
        } else {
            Seq::empty()
        }) + text_member("before"@, filter.before) + text_member("after"@, filter.after),
    )
}

/// The document of a condition on a checkbox.
pub open spec fn checkbox_filter_document(filter: CheckboxFilter) -> JsonView {
    JsonView::Object(seq![member("equals"@, JsonView::Bool(filter.equals))])
}

impl Clone for DateFilter {
    fn clone(&self) -> (res: Self)
        ensures
            res@ == self@,
    {
        DateFilter {
            equals: clone_optional(&self.equals),
            this_week: self.this_week,
            before: clone_optional(&self.before),
            after: clone_optional(&self.after),
        }
    }
}

impl DateFilter {
    /// Appends the member that holds a text under `key`, where there is a
    /// text.
    fn push_text(members: &mut Vec<Member>, key: &str, text: &Option<String>)
        ensures
            member_views(final(members)@) == member_views(old(members)@) + text_member(
                key@,
                option_view(*text),
            ),
    {
        let ghost before = member_views(members@);
        match text {
            Some(text) => {
                members.push(Member::new(key, Json::string(text.as_str())));
                assert(member_views(members@) =~= before + seq![
                    member(key@, JsonView::Str(text@)),
                ]);
            },
            None => {
                assert(member_views(members@) =~= before + Seq::<MemberView>::empty());
            },
        }
    }

    /// The document of the condition.
    pub fn to_json(&self) -> (res: Json)
        ensures
            res@ == date_filter_document(self@),
    {
        let mut members: Vec<Member> = Vec::new();
        assert(member_views(members@) =~= Seq::<MemberView>::empty());
        DateFilter::push_text(&mut members, "equals", &self.equals);
        let ghost first = member_views(members@);
        if self.this_week {
            let nothing: Vec<Member> = Vec::new();
            assert(member_views(nothing@) =~= Seq::<MemberView>::empty());
            members.push(Member::new("this_week", Json::object(nothing)));
            assert(member_views(members@) =~= first + seq![
                member("this_week"@, JsonView::Object(Seq::empty())),
            ]);
        } else {
            assert(member_views(members@) =~= first + Seq::<MemberView>::empty());
        }
        DateFilter::push_text(&mut members, "before", &self.before);
        DateFilter::push_text(&mut members, "after", &self.after);
        assert(member_views(members@) =~= date_filter_document(self@)->Object_0);
        Json::object(members)
    }
}

impl CheckboxFilter {
    /// The document of the condition.
    pub fn to_json(&self) -> (res: Json)
        ensures
            res@ == checkbox_filter_document(*self),
    {
        Json::object_of("equals", Json::Bool(self.equals))
    }
}

/// A node of a filter. A leaf is a condition on one property, or a
/// document that the caller wrote and that is passed on as it is; an `and`
/// node and an `or` node each hold the nodes below them, to any depth.
#[derive(Debug, PartialEq, Eq)]
pub enum FilterPart {
    Property { property: String, date: Option<DateFilter>, checkbox: Option<CheckboxFilter> },
    Raw(Json),
    And(Vec<FilterPart>),
    Or(Vec<FilterPart>),
}

/// The mathematical value of a [`FilterPart`].
pub enum FilterPartView {
    Property { property: Seq<char>, date: Option<DateFilterView>, checkbox: Option<CheckboxFilter> },
    Raw(JsonView),
    And(Seq<FilterPartView>),
    Or(Seq<FilterPartView>),
}

/// The views of the first `count` nodes of a row, in their order.
pub open spec fn views_upto(children: Seq<FilterPart>, count: nat) -> Seq<FilterPartView>
    decreases children, count,
{
    if count == 0 || count > children.len() {
        Seq::empty()
    } else {
        views_upto(children, (count - 1) as nat).push(children[count - 1].view())
    }
}

impl View for FilterPart {
    type V = FilterPartView;

    open spec fn view(&self) -> FilterPartView
        decreases self, 0nat,
    {
        match self {
            FilterPart::Property { property, date, checkbox } => FilterPartView::Property {
                property: property@,
                date: option_view(*date),
                checkbox: *checkbox,
            },
            FilterPart::Raw(doc) => FilterPartView::Raw(doc@),
            FilterPart::And(children) => FilterPartView::And(
                views_upto(children@, children@.len()),
            ),
            FilterPart::Or(children) => FilterPartView::Or(views_upto(children@, children@.len())),
        }
    }
}

/// The views of the first nodes of a row are the views of that part of the
/// row.
pub proof fn lemma_views_upto(children: Seq<FilterPart>, count: nat)
    requires
        count <= children.len(),
    ensures
        views_upto(children, count) == views(children.subrange(0, count as int)),
    decreases count,
{
    if count > 0 {
        lemma_views_upto(children, (count - 1) as nat);
        assert(views(children.subrange(0, count as int)) =~= views(
            children.subrange(0, count - 1),
        ).push(children[count - 1]@));
    } else {
        assert(views(children.subrange(0, 0)) =~= Seq::<FilterPartView>::empty());
    }
}

/// An `and` node is viewed child by child.
pub proof fn lemma_and_view(children: Vec<FilterPart>)
    ensures
        FilterPart::And(children)@ == FilterPartView::And(views(children@)),
{
    lemma_views_upto(children@, children@.len());
    assert(children@.subrange(0, children@.len() as int) =~= children@);
}

/// An `or` node is viewed child by child.
pub proof fn lemma_or_view(children: Vec<FilterPart>)
    ensures
        FilterPart::Or(children)@ == FilterPartView::Or(views(children@)),
{
    lemma_views_upto(children@, children@.len());
    assert(children@.subrange(0, children@.len() as int) =~= children@);
}

/// The member that holds a document under `key`, where there is one.
pub open spec fn document_member(key: Seq<char>, doc: Option<JsonView>) -> Seq<MemberView> {
    match doc {
        Some(doc) => seq![member(key, doc)],
        None => Seq::empty(),
    }
}

/// The document of a condition on one property: the name of the property,
/// then the condition on a date and the condition on a checkbox, each
/// where it is set.
pub open spec fn leaf_document(
    property: Seq<char>,
    date: Option<DateFilterView>,
    checkbox: Option<CheckboxFilter>,
) -> JsonView {
    JsonView::Object(
        seq![member("property"@, JsonView::Str(property))] + document_member(
            "date"@,
            match date {
                Some(date) => Some(date_filter_document(date)),
                None => None,
            },
        ) + document_member(
            "checkbox"@,
            match checkbox {
                Some(checkbox) => Some(checkbox_filter_document(checkbox)),
                None => None,
            },
        ),
    )
}

/// The document of a filter: a leaf as its condition or as it was given,
/// an `and` node as an object whose one member `and` holds the documents
/// of the nodes below it in their order, an `or` node likewise under `or`.
pub open spec fn filter_document(filter: FilterPartView) -> JsonView
    decreases filter,
{
    match filter {
        FilterPartView::Property { property, date, checkbox } => leaf_document(
            property,
            date,
            checkbox,
        ),
        FilterPartView::Raw(doc) => doc,
        FilterPartView::And(children) => JsonView::Object(
            seq![
                member(
                    "and"@,
                    JsonView::Array(
                        Seq::new(
                            children.len(),
                            |i: int|
                                if 0 <= i < children.len() {
                                    filter_document(children[i])
                                } else {
                                    JsonView::Null
                                },
                        ),
                    ),
                ),
            ],
        ),
        FilterPartView::Or(children) => JsonView::Object(
            seq![
                member(
                    "or"@,
                    JsonView::Array(
                        Seq::new(
                            children.len(),
                            |i: int|
                                if 0 <= i < children.len() {
                                    filter_document(children[i])
                                } else {
                                    JsonView::Null
                                },
                        ),
                    ),
                ),
            ],
        ),
    }
}

/// The documents of a row of nodes, in their order.
pub open spec fn filter_documents(children: Seq<FilterPartView>) -> Seq<JsonView> {
    Seq::new(children.len(), |i: int| filter_document(children[i]))
}

/// The document of an `and` node and of an `or` node holds the documents
/// of the nodes below it, one for each and in their order, under the one
/// member `and` or `or`.
pub proof fn lemma_combinator_document(children: Seq<FilterPartView>)
    ensures
        filter_document(FilterPartView::And(children)) == JsonView::Object(
            seq![member("and"@, JsonView::Array(filter_documents(children)))],
        ),
        filter_document(FilterPartView::Or(children)) == JsonView::Object(
            seq![member("or"@, JsonView::Array(filter_documents(children)))],
        ),
{
    let under_and = filter_document(FilterPartView::And(children))->Object_0[0].value->Array_0;
    let under_or = filter_document(FilterPartView::Or(children))->Object_0[0].value->Array_0;
    assert(under_and =~= filter_documents(children));
    assert(under_or =~= filter_documents(children));
}

impl FilterPart {
    /// An `and` node with nothing below it yet.
    pub fn new_and() -> (res: FilterPart)
        ensures
            res@ == FilterPartView::And(Seq::empty()),
    {
        let children: Vec<FilterPart> = Vec::new();
        proof {
            lemma_and_view(children);
            assert(views(children@) =~= Seq::<FilterPartView>::empty());
        }
        FilterPart::And(children)
    }

    /// An `or` node with nothing below it yet.
    pub fn new_or() -> (res: FilterPart)
        ensures
            res@ == FilterPartView::Or(Seq::empty()),
    {
        let children: Vec<FilterPart> = Vec::new();
        proof {
            lemma_or_view(children);
            assert(views(children@) =~= Seq::<FilterPartView>::empty());
        }
        FilterPart::Or(children)
    }

    /// A leaf on the named property, with no condition set yet.
    pub fn new_filter(property: &str) -> (res: FilterPart)
        ensures
            res@ == (FilterPartView::Property { property: property@, date: None, checkbox: None }),
    {
        FilterPart::Property { property: String::from_str(property), date: None, checkbox: None }
    }

    /// A leaf that asks of the named property what `date` says.
    pub fn new_date_filter(property: &str, date: DateFilter) -> (res: FilterPart)
        ensures
            res@ == (FilterPartView::Property {
                property: property@,
                date: Some(date@),
                checkbox: None,
            }),
    {
        FilterPart::Property {
            property: String::from_str(property),
            date: Some(date),
            checkbox: None,
        }
    }

    /// A leaf that asks of the named checkbox that it is ticked, or that
    /// it is not.
    pub fn new_checkbox_filter(property: &str, equals: bool) -> (res: FilterPart)
        ensures
            res@ == (FilterPartView::Property {
                property: property@,
                date: None,
                checkbox: Some(CheckboxFilter { equals }),
            }),
    {
        FilterPart::Property {
            property: String::from_str(property),
            date: None,
            checkbox: Some(CheckboxFilter { equals }),
        }
    }

    /// A leaf that is passed on as the caller wrote it.
    pub fn new_raw(doc: Json) -> (res: FilterPart)
        ensures
            res@ == FilterPartView::Raw(doc@),
    {
        FilterPart::Raw(doc)
    }

    /// The nodes below an `and` node.
    pub fn get_and(&self) -> (res: &Vec<FilterPart>)
        requires
            self@ is And,
        ensures
            self@ == FilterPartView::And(views(res@)),
    {
        match self {
            FilterPart::And(children) => {
                proof {
                    lemma_and_view(*children);
                }
                children
            },
            _ => vstd::pervasive::unreached(),
        }
    }

    /// Puts a node last below an `and` node. On any other node this is a
    /// misuse: the node stays as it was, and the error says so.
    pub fn add_and_filter(&mut self, filter: FilterPart) -> (res: Result<(), ClientError>)
        ensures
            match old(self)@ {
                FilterPartView::And(children) => res is Ok && final(self)@ == FilterPartView::And(
                    children.push(filter@),
                ),
                _ => res matches Err(error) && error@ == ClientErrorView::ValidationError(
                    ValidationError::NotAnAndFilter,
                ) && final(self)@ == old(self)@,
            },
    {
        match self {
            FilterPart::And(children) => {
                proof {
                    lemma_and_view(*children);
                }
                let ghost before = views(children@);
                children.push(filter);
                proof {
                    lemma_and_view(*children);
                    assert(views(children@) =~= before.push(filter@));
                }
                Ok(())
            },
            _ => Err(ClientError::ValidationError(ValidationError::NotAnAndFilter)),
        }
    }

    /// Puts a node last below an `or` node. On any other node this is a
    /// misuse: the node stays as it was, and the error says so.
    pub fn add_or_filter(&mut self, filter: FilterPart) -> (res: Result<(), ClientError>)
        ensures
            match old(self)@ {
                FilterPartView::Or(children) => res is Ok && final(self)@ == FilterPartView::Or(
                    children.push(filter@),
                ),
                _ => res matches Err(error) && error@ == ClientErrorView::ValidationError(
                    ValidationError::NotAnOrFilter,
                ) && final(self)@ == old(self)@,
            },
    {
        match self {
            FilterPart::Or(children) => {
                proof {
                    lemma_or_view(*children);
                }
                let ghost before = views(children@);
                children.push(filter);
                proof {
                    lemma_or_view(*children);
                    assert(views(children@) =~= before.push(filter@));
                }
                Ok(())
            },
            _ => Err(ClientError::ValidationError(ValidationError::NotAnOrFilter)),
        }
    }

    /// The documents of a row of nodes, in their order.
    fn documents(children: &Vec<FilterPart>) -> (res: Vec<Json>)
        ensures
            res@.len() == children@.len(),
            forall|i: int| 0 <= i < children@.len() ==> res@[i]@ == filter_document(children@[i]@),
        decreases children,
    {
        let mut docs: Vec<Json> = Vec::new();
        let mut i: usize = 0;
        while i < children.len()
            invariant
                i <= children@.len(),
                docs@.len() == i,
                forall|j: int| 0 <= j < i ==> docs@[j]@ == filter_document(children@[j]@),
            decreases children@.len() - i,
        {
            assert(decreases_to!(children => children[i as int]));
            docs.push(children[i].to_json());
            i += 1;
        }
        docs
    }

    /// The document of the filter, as it is sent in the body of a query.
    pub fn to_json(&self) -> (res: Json)
        ensures
            res@ == filter_document(self@),
        decreases self,
    {
        match self {
            FilterPart::Property { property, date, checkbox } => {
                let mut members: Vec<Member> = Vec::new();
                members.push(Member::new("property", Json::string(property.as_str())));
                let ghost first = member_views(members@);
                assert(first =~= seq![member("property"@, JsonView::Str(property@))]);
                match date {
                    Some(date) => {
                        members.push(Member::new("date", date.to_json()));
                        assert(member_views(members@) =~= first + seq![
                            member("date"@, date_filter_document(date@)),
                        ]);
                    },
                    None => {
                        assert(member_views(members@) =~= first + Seq::<MemberView>::empty());
                    },
                }
                let ghost second = member_views(members@);
                match checkbox {
                    Some(checkbox) => {
                        members.push(Member::new("checkbox", checkbox.to_json()));
                        assert(member_views(members@) =~= second + seq![
                            member("checkbox"@, checkbox_filter_document(*checkbox)),
                        ]);
                    },
                    None => {
                        assert(member_views(members@) =~= second + Seq::<MemberView>::empty());
                    },
                }
                Json::object(members)
            },
            FilterPart::Raw(doc) => doc.clone(),
            FilterPart::And(children) => {
                proof {
                    lemma_and_view(*children);
                }
                assert(decreases_to!(self => self->And_0));
                let docs = FilterPart::documents(children);
                assert(views(docs@) =~= filter_document(self@)->Object_0[0].value->Array_0);
                Json::object_of("and", Json::array(docs))
            },
            FilterPart::Or(children) => {
                proof {
                    lemma_or_view(*children);
                }
                assert(decreases_to!(self => self->Or_0));
                let docs = FilterPart::documents(children);
                assert(views(docs@) =~= filter_document(self@)->Object_0[0].value->Array_0);
                Json::object_of("or", Json::array(docs))
            },
        }
    }
}

} // verus!
