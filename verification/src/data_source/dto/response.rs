use vstd::prelude::*;
use vstd::string::StringExecFns;
use crate::data_source::types::{
    decode_all_declared, decode_data_source_parent, DataSourceParent, DataSourceParentView,
    Property, PropertyInfo, PropertyView,
};
use crate::database::types::{decode_database_parent, DatabaseParent, DatabaseParentView};
use crate::decode::{
    field, flag_field, members_field, optional_text, optional_text_field, records_field,
    require_flag, require_members, require_record, require_records, require_text, text_field,
};
use crate::errors::{DecodeError, DecodeErrorView};
use crate::json::{Json, JsonView};
use crate::page::types::{Page, PageView};
use crate::time::{instant_field, require_instant, Timestamp};
use crate::text::{option_view, owned, result_view, str_eq, views};
use crate::types::{
    cover_field, icon_field, optional_cover, optional_icon, Cover, CoverView, Icon, IconView,
    Property as PageProperty, PropertyValue, PropertyView as PagePropertyView, Title, TitleView,
};

verus! {

/// A data source as the remote service describes it: what it is called,
/// where it hangs, and the properties that it declares.
#[derive(Debug, PartialEq, Eq)]
pub struct GetDataSourceResponse {
    id: String,
    title: Vec<Title>,
    archived: bool,
    is_inline: bool,
    cover: Option<Cover>,
    icon: Option<Icon>,
    parent: DataSourceParent,
    database_parent: DatabaseParent,
    properties: Vec<Property>,
    url: String,
    created_time: Timestamp,
    last_edited_time: Timestamp,
}

/// The mathematical value of a [`GetDataSourceResponse`].
pub struct GetDataSourceResponseView {
    pub id: Seq<char>,
    pub title: Seq<TitleView>,
    pub archived: bool,
    pub is_inline: bool,
    pub cover: Option<CoverView>,
    pub icon: Option<IconView>,
    pub parent: DataSourceParentView,
    pub database_parent: DatabaseParentView,
    pub properties: Seq<PropertyView>,
    pub url: Seq<char>,
    pub created_time: Timestamp,
    pub last_edited_time: Timestamp,
}

impl View for GetDataSourceResponse {
    type V = GetDataSourceResponseView;

    closed spec fn view(&self) -> GetDataSourceResponseView {
        GetDataSourceResponseView {
            id: self.id@,
            title: views(self.title@),
            archived: self.archived,
            is_inline: self.is_inline,
            cover: option_view(self.cover),
            icon: option_view(self.icon),
            parent: self.parent@,
            database_parent: self.database_parent@,
            properties: views(self.properties@),
            url: self.url@,
            created_time: self.created_time,
            last_edited_time: self.last_edited_time,
        }
    }
}

/// The properties that a data source declares: the members of its
/// `properties`, which must be an object, one property for each.
pub open spec fn decode_declared_properties(doc: JsonView) -> Result<
    Seq<PropertyView>,
    DecodeErrorView,
> {
    match require_members(doc, "properties"@) {
        Err(error) => Err(error),
        Ok(members) => decode_all_declared(members),
    }
}

/// The data source that a document describes. The members are read in the
/// order in which they stand here, and the first that is missing or of the
/// wrong kind decides the error.
pub open spec fn decode_data_source_response(doc: JsonView) -> Result<
    GetDataSourceResponseView,
    DecodeErrorView,
> {
    let id = require_text(doc, "id"@);
    let title = require_records::<Title>(doc, "title"@);
    let archived = require_flag(doc, "archived"@);
    let is_inline = require_flag(doc, "is_inline"@);
    let cover = optional_cover(doc, "cover"@);
    let icon = optional_icon(doc, "icon"@);
    let parent = require_record(
        doc,
        "parent"@,
        |inner: JsonView| decode_data_source_parent(inner),
    );
    let database_parent = require_record(
        doc,
        "database_parent"@,
        |inner: JsonView| decode_database_parent(inner),
    );
    let properties = decode_declared_properties(doc);
    let url = require_text(doc, "url"@);
    let created_time = require_instant(doc, "created_time"@);
    let last_edited_time = require_instant(doc, "last_edited_time"@);
    if id is Err {
        Err(id->Err_0)
    } else if title is Err {
        Err(title->Err_0)
    } else if archived is Err {
        Err(archived->Err_0)
    } else if is_inline is Err {
        Err(is_inline->Err_0)
    } else if cover is Err {
        Err(cover->Err_0)
    } else if icon is Err {
        Err(icon->Err_0)
    } else if parent is Err {
        Err(parent->Err_0)
    } else if database_parent is Err {
        Err(database_parent->Err_0)
    } else if properties is Err {
        Err(properties->Err_0)
    } else if url is Err {
        Err(url->Err_0)
    } else if created_time is Err {
        Err(created_time->Err_0)
    } else if last_edited_time is Err {
        Err(last_edited_time->Err_0)
    } else {
        Ok(
            GetDataSourceResponseView {
                id: id->Ok_0,
                title: title->Ok_0,
                archived: archived->Ok_0,
                is_inline: is_inline->Ok_0,
                cover: cover->Ok_0,
                icon: icon->Ok_0,
                parent: parent->Ok_0,
                database_parent: database_parent->Ok_0,
                properties: properties->Ok_0,
                url: url->Ok_0,
                created_time: created_time->Ok_0,
                last_edited_time: last_edited_time->Ok_0,
            },
        )
    }
}

impl GetDataSourceResponse {
    /// Reads a data source from its document.
    pub fn decode(doc: &Json) -> (res: Result<GetDataSourceResponse, DecodeError>)
        ensures
            result_view(res) == decode_data_source_response(doc@),
    {
        let id = match text_field(doc, "id") {
            Ok(id) => String::from_str(id),
            Err(error) => {
                return Err(error);
            },
        };
        let title = match records_field::<Title>(doc, "title") {
            Ok(title) => title,
            Err(error) => {
                return Err(error);
            },
        };
        let archived = match flag_field(doc, "archived") {
            Ok(flag) => flag,
            Err(error) => {
                return Err(error);
            },
        };
        let is_inline = match flag_field(doc, "is_inline") {
            Ok(flag) => flag,
            Err(error) => {
                return Err(error);
            },
        };
        let cover = match cover_field(doc, "cover") {
            Ok(cover) => cover,
            Err(error) => {
                return Err(error);
            },
        };
        let icon = match icon_field(doc, "icon") {
            Ok(icon) => icon,
            Err(error) => {
                return Err(error);
            },
        };
        let parent_doc = match field(doc, "parent") {
            Ok(parent_doc) => parent_doc,
            Err(error) => {
                return Err(error);
            },
        };
        let parent = match DataSourceParent::decode(parent_doc) {
            Ok(parent) => parent,
            Err(error) => {
                return Err(error);
            },
        };
        let database_parent_doc = match field(doc, "database_parent") {
            Ok(database_parent_doc) => database_parent_doc,
            Err(error) => {
                return Err(error);
            },
        };
        let database_parent = match DatabaseParent::decode(database_parent_doc) {
            Ok(database_parent) => database_parent,
            Err(error) => {
                return Err(error);
            },
        };
        let members = match members_field(doc, "properties") {
            Ok(members) => members,
            Err(error) => {
                return Err(error);
            },
        };
        let properties = match Property::decode_all(members) {
            Ok(properties) => properties,
            Err(error) => {
                return Err(error);
            },
        };
        let url = match text_field(doc, "url") {
            Ok(url) => String::from_str(url),
            Err(error) => {
                return Err(error);
            },
        };
        let created_time = match instant_field(doc, "created_time") {
            Ok(created_time) => created_time,
            Err(error) => {
                return Err(error);
            },
        };
        let last_edited_time = match instant_field(doc, "last_edited_time") {
            Ok(last_edited_time) => last_edited_time,
            Err(error) => {
                return Err(error);
            },
        };
        Ok(
            GetDataSourceResponse {
                id,
                title,
                archived,
                is_inline,
                cover,
                icon,
                parent,
                database_parent,
                properties,
                url,
                created_time,
                last_edited_time,
            },
        )
    }

    /// When it was made.
    pub fn get_created_time(&self) -> (res: Timestamp)
        ensures
            res == self@.created_time,
    {
        self.created_time
    }

    /// When it was last edited.
    pub fn get_last_edited_time(&self) -> (res: Timestamp)
        ensures
            res == self@.last_edited_time,
    {
        self.last_edited_time
    }

    /// The id of the data source.
    pub fn get_id(&self) -> (res: &str)
        ensures
            res@ == self@.id,
    {
        self.id.as_str()
    }

    /// The properties that the data source declares, in the order of the
    /// wire.
    pub fn get_properties(&self) -> (res: Vec<Property>)
        ensures
            views(res@) == self@.properties,
    {
        Property::clone_all(&self.properties)
    }
}

/// What a page shows of itself after a query: its id and its properties.
#[derive(Debug, PartialEq, Eq)]
pub struct PageInfo {
    id: String,
    properties: Vec<PageProperty>,
}

/// The mathematical value of a [`PageInfo`].
pub struct PageInfoView {
    pub id: Seq<char>,
    pub properties: Seq<PagePropertyView>,
}

impl View for PageInfo {
    type V = PageInfoView;

    closed spec fn view(&self) -> PageInfoView {
        PageInfoView { id: self.id@, properties: views(self.properties@) }
    }
}

/// The text that shows the first property of the given kind; `None` where
/// no property is of that kind. Only the kind is looked at, neither the
/// name of a property nor the data that it carries.
pub open spec fn find_display(properties: Seq<PagePropertyView>, kind: PropertyInfo) -> Option<
    Seq<char>,
>
    decreases properties.len(),
{
    if properties.len() == 0 {
        None
    } else if properties[0].value.kind() == kind {
        Some(properties[0].value.display())
    } else {
        find_display(properties.drop_first(), kind)
    }
}

/// The first property of the given name; `None` where no property has that
/// name.
pub open spec fn find_named(properties: Seq<PagePropertyView>, name: Seq<char>) -> Option<
    PagePropertyView,
>
    decreases properties.len(),
{
    if properties.len() == 0 {
        None
    } else if properties[0].name == name {
        Some(properties[0])
    } else {
        find_named(properties.drop_first(), name)
    }
}

/// The first of several properties of one kind wins: where a text is
/// found, it shows a property of the kind before which no property of that
/// kind stands; where none is found, no property is of the kind.
pub proof fn lemma_find_is_first_match(properties: Seq<PagePropertyView>, kind: PropertyInfo)
    ensures
        match find_display(properties, kind) {
            Some(text) => exists|i: int|
                0 <= i < properties.len() && (#[trigger] properties[i]).value.kind() == kind
                    && text == properties[i].value.display() && forall|j: int|
                    0 <= j < i ==> (#[trigger] properties[j]).value.kind() != kind,
            None => forall|i: int|
                0 <= i < properties.len() ==> (#[trigger] properties[i]).value.kind() != kind,
        },
    decreases properties.len(),
{
    if properties.len() > 0 && properties[0].value.kind() != kind {
        let rest = properties.drop_first();
        lemma_find_is_first_match(rest, kind);
        assert forall|i: int| 0 <= i < rest.len() implies rest[i] == properties[i + 1] by {}
        match find_display(rest, kind) {
            Some(text) => {
                let i = choose|i: int|
                    0 <= i < rest.len() && (#[trigger] rest[i]).value.kind() == kind && text
                        == rest[i].value.display() && forall|j: int|
                        0 <= j < i ==> (#[trigger] rest[j]).value.kind() != kind;
                assert(properties[i + 1] == rest[i]);
                assert forall|j: int| 0 <= j < i + 1 implies (#[trigger] properties[j]).value.kind()
                    != kind by {
                    if j > 0 {
                        assert(properties[j] == rest[j - 1]);
                    }
                }
            },
            None => {
                assert forall|i: int| 0 <= i < properties.len() implies (
                #[trigger] properties[i]).value.kind() != kind by {
                    if i > 0 {
                        assert(properties[i] == rest[i - 1]);
                    }
                }
            },
        }
    } else if properties.len() > 0 {
        assert(properties[0].value.kind() == kind);
    }
}

impl PageInfo {
    /// What a page with the given id and properties shows of itself.
    pub fn new(id: &str, properties: Vec<PageProperty>) -> (res: PageInfo)
        ensures
            res@ == (PageInfoView { id: id@, properties: views(properties@) }),
    {
        PageInfo { id: String::from_str(id), properties }
    }

    /// The id of the page.
    pub fn get_id(&self) -> (res: &str)
        ensures
            res@ == self@.id,
    {
        self.id.as_str()
    }

    /// The properties of the page, in the order of the wire.
    pub fn get_properties(&self) -> (res: &Vec<PageProperty>)
        ensures
            views(res@) == self@.properties,
    {
        &self.properties
    }

    /// The first property of the given name. This is the way to tell
    /// properties of one kind apart.
    pub fn find_by_name(&self, name: &str) -> (res: Option<&PageProperty>)
        ensures
            option_view(res) == find_named(self@.properties, name@),
    {
        let mut i: usize = 0;
        let ghost all = views(self.properties@);
        assert(all.subrange(0, all.len() as int) =~= all);
        while i < self.properties.len()
            invariant
                i <= self.properties@.len(),
                all == views(self.properties@),
                find_named(all, name@) == find_named(
                    all.subrange(i as int, all.len() as int),
                    name@,
                ),
            decreases self.properties@.len() - i,
        {
            let ghost rest = all.subrange(i as int, all.len() as int);
            assert(rest.drop_first() =~= all.subrange(i as int + 1, all.len() as int));
            assert(rest[0] == self.properties@[i as int]@);
            if str_eq(self.properties[i].get_name(), name) {
                return Some(&self.properties[i]);
            }
            i += 1;
        }
        None
    }

    /// The text that shows the first property of the kind of
    /// `property_value`; `None` where the page has no property of that
    /// kind. The data that `property_value` carries plays no part.
    pub fn find_property(&self, property_value: &PropertyValue) -> (res: Option<String>)
        ensures
            option_view(res) == find_display(self@.properties, property_value@.kind()),
    {
        let mut i: usize = 0;
        let ghost all = views(self.properties@);
        let ghost kind = property_value@.kind();
        assert(all.subrange(0, all.len() as int) =~= all);
        while i < self.properties.len()
            invariant
                i <= self.properties@.len(),
                all == views(self.properties@),
                kind == property_value@.kind(),
                find_display(all, kind) == find_display(
                    all.subrange(i as int, all.len() as int),
                    kind,
                ),
            decreases self.properties@.len() - i,
        {
            let ghost rest = all.subrange(i as int, all.len() as int);
            assert(rest.drop_first() =~= all.subrange(i as int + 1, all.len() as int));
            assert(rest[0] == self.properties@[i as int]@);
            if self.properties[i].get_property_value().variant_eq(property_value) {
                return Some(self.properties[i].get_property_value().get_value());
            }
            i += 1;
        }
        None
    }
}

/// One sheet of the pages that a query found, and whether more follow.
#[derive(Debug, PartialEq, Eq)]
pub struct QueryPageListResponse {
    has_more: bool,
    next_cursor: Option<String>,
    results: Vec<Page>,
}

/// The mathematical value of a [`QueryPageListResponse`].
pub struct QueryPageListResponseView {
    pub has_more: bool,
    pub next_cursor: Option<Seq<char>>,
    pub results: Seq<PageView>,
}

impl View for QueryPageListResponse {
    type V = QueryPageListResponseView;

    closed spec fn view(&self) -> QueryPageListResponseView {
        QueryPageListResponseView {
            has_more: self.has_more,
            next_cursor: option_view(self.next_cursor),
            results: views(self.results@),
        }
    }
}

/// The sheet that a document describes: `has_more`, a boolean;
/// `next_cursor`, a string where there is one; `results`, an array of
/// pages. A cursor must be there exactly when more follows: a document that
/// has the one without the other is refused.
pub open spec fn decode_page_list(doc: JsonView) -> Result<
    QueryPageListResponseView,
    DecodeErrorView,
> {
    let has_more = require_flag(doc, "has_more"@);
    let next_cursor = optional_text(doc, "next_cursor"@);
    let results = require_records::<Page>(doc, "results"@);
    if has_more is Err {
        Err(has_more->Err_0)
    } else if next_cursor is Err {
        Err(next_cursor->Err_0)
    } else if has_more->Ok_0 != (next_cursor->Ok_0 is Some) {
        Err(DecodeErrorView::CursorMismatch)
    } else if results is Err {
        Err(results->Err_0)
    } else {
        Ok(
            QueryPageListResponseView {
                has_more: has_more->Ok_0,
                next_cursor: next_cursor->Ok_0,
                results: results->Ok_0,
            },
        )
    }
}

/// What each page of a list shows of itself, in the order of the list.
pub open spec fn project_pages(pages: Seq<PageView>) -> Seq<PageInfoView> {
    Seq::new(
        pages.len(),
        |i: int| PageInfoView { id: pages[i].id, properties: pages[i].properties },
    )
}

impl QueryPageListResponse {
    /// Reads a sheet of pages from its document.
    pub fn decode(doc: &Json) -> (res: Result<QueryPageListResponse, DecodeError>)
        ensures
            result_view(res) == decode_page_list(doc@),
            res matches Ok(list) ==> list@.has_more == (list@.next_cursor is Some),
    {
        let has_more = match flag_field(doc, "has_more") {
            Ok(flag) => flag,
            Err(error) => {
                return Err(error);
            },
        };
        let next_cursor = match optional_text_field(doc, "next_cursor") {
            Ok(next_cursor) => owned(next_cursor),
            Err(error) => {
                return Err(error);
            },
        };
        if has_more != next_cursor.is_some() {
            return Err(DecodeError::CursorMismatch);
        }
        match records_field::<Page>(doc, "results") {
            Err(error) => Err(error),
            Ok(results) => Ok(QueryPageListResponse { has_more, next_cursor, results }),
        }
    }

    /// Whether more pages follow this sheet.
    pub fn has_more(&self) -> (res: bool)
        ensures
            res == self@.has_more,
    {
        self.has_more
    }

    /// The cursor with which to ask for the next sheet, where one follows.
    pub fn get_next_cursor(&self) -> (res: Option<&str>)
        ensures
            option_view(res) == self@.next_cursor,
    {
        match &self.next_cursor {
            Some(cursor) => Some(cursor.as_str()),
            None => None,
        }
    }

    /// The pages of this sheet as the remote service gave them.
    pub fn get_results(&self) -> (res: &Vec<Page>)
        ensures
            views(res@) == self@.results,
    {
        &self.results
    }

    /// What each page of this sheet shows of itself, in the order of the
    /// sheet.
    pub fn get_pages(&self) -> (res: Vec<PageInfo>)
        ensures
            views(res@) == project_pages(self@.results),
    {
        let mut pages: Vec<PageInfo> = Vec::new();
        let mut i: usize = 0;
        while i < self.results.len()
            invariant
                i <= self.results@.len(),
                pages@.len() == i,
                forall|j: int|
                    0 <= j < i ==> pages@[j]@ == (PageInfoView {
                        id: self.results@[j]@.id,
                        properties: self.results@[j]@.properties,
                    }),
            decreases self.results@.len() - i,
        {
            let page = &self.results[i];
            pages.push(PageInfo::new(page.get_id(), page.get_properties()));
            i += 1;
        }
        assert(views(pages@) =~= project_pages(views(self.results@)));
        pages
    }
}

} // verus!
