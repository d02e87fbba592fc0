use vstd::prelude::*;
use vstd::std_specs::convert::FromSpecImpl;
use vstd::string::StringExecFns;
use crate::decode::{
    field, flag_field, members_field, optional_flag, optional_flag_field, optional_text,
    optional_text_field, require_flag, require_members, require_record, require_text,
    text_field, FromJson,
};
use crate::errors::{DecodeError, DecodeErrorView};
use crate::json::{member, member_views, optional_string, text_or_null, Json, JsonView, Member};
use crate::time::{instant_field, require_instant, Timestamp};
use crate::text::{clone_optional, option_view, owned, result_view, str_eq, views};
use crate::types::{
    cover_field, decode_editor, decode_properties, icon_field, optional_cover, optional_icon,
    Cover, CoverView, EditorInfo, EditorInfoView, Icon, IconView, Property, PropertyView,
};

verus! {

/// What a page hangs under: a database, a data source or another page.
#[derive(Debug, Clone, Copy, PartialEq, Eq, Structural)]
pub enum ParentType {
    DatabaseId,
    DataSourceId,
    PageId,
}

/// The kind of parent that a word asks for: `page` for a page, `database`
/// for a database, and any other word for a data source.
pub open spec fn parent_type_of(word: Seq<char>) -> ParentType {
    if word == "page"@ {
        ParentType::PageId
    } else if word == "database"@ {
        ParentType::DatabaseId
    } else {
        ParentType::DataSourceId
    }
}

/// The name by which the wire format calls a kind of parent.
pub open spec fn parent_type_name(parent_type: ParentType) -> Seq<char> {
    match parent_type {
        ParentType::DatabaseId => "database_id"@,
        ParentType::DataSourceId => "data_source_id"@,
        ParentType::PageId => "page_id"@,
    }
}

/// The kind of parent that a wire name calls, if it calls one.
pub open spec fn parent_type_named(name: Seq<char>) -> Option<ParentType> {
    if name == "database_id"@ {
        Some(ParentType::DatabaseId)
    } else if name == "data_source_id"@ {
        Some(ParentType::DataSourceId)
    } else if name == "page_id"@ {
        Some(ParentType::PageId)
    } else {
        None
    }
}

/// Each kind of parent is found again under its own wire name.
pub proof fn lemma_parent_type_name_is_stable(parent_type: ParentType)
    ensures
        parent_type_named(parent_type_name(parent_type)) == Some(parent_type),
{
    reveal_strlit("database_id");
    reveal_strlit("data_source_id");
    reveal_strlit("page_id");
    assert("database_id"@.len() == 11);
    assert("data_source_id"@.len() == 14);
    assert("page_id"@.len() == 7);
}

impl From<&str> for ParentType {
    fn from(s: &str) -> (res: ParentType) {
        if str_eq(s, "page") {
            ParentType::PageId
        } else if str_eq(s, "database") {
            ParentType::DatabaseId
        } else {
            ParentType::DataSourceId
        }
    }
}

impl FromSpecImpl<&str> for ParentType {
    open spec fn obeys_from_spec() -> bool {
        true
    }

    open spec fn from_spec(s: &str) -> ParentType {
        parent_type_of(s@)
    }
}

impl ParentType {
    /// The name by which the wire format calls the kind of parent.
    pub fn as_str(&self) -> (res: &'static str)
        ensures
            res@ == parent_type_name(*self),
    {
        match self {
            ParentType::DatabaseId => "database_id",
            ParentType::DataSourceId => "data_source_id",
            ParentType::PageId => "page_id",
        }
    }

    /// The kind of parent that a wire name calls, if it calls one.
    pub fn from_name(name: &str) -> (res: Option<ParentType>)
        ensures
            res == parent_type_named(name@),
    {
        if str_eq(name, "database_id") {
            Some(ParentType::DatabaseId)
        } else if str_eq(name, "data_source_id") {
            Some(ParentType::DataSourceId)
        } else if str_eq(name, "page_id") {
            Some(ParentType::PageId)
        } else {
            None
        }
    }
}

/// The parent of a page: its kind, and its id in the one place of three
/// that belongs to the kind.
#[derive(Debug, PartialEq, Eq)]
pub struct PageParent {
    parent_type: ParentType,
    database_id: Option<String>,
    data_source_id: Option<String>,
    page_id: Option<String>,
}

/// The mathematical value of a [`PageParent`].
pub struct PageParentView {
    pub parent_type: ParentType,
    pub database_id: Option<Seq<char>>,
    pub data_source_id: Option<Seq<char>>,
    pub page_id: Option<Seq<char>>,
}

impl View for PageParent {
    type V = PageParentView;

    closed spec fn view(&self) -> PageParentView {
        PageParentView {
            parent_type: self.parent_type,
            database_id: option_view(self.database_id),
            data_source_id: option_view(self.data_source_id),
            page_id: option_view(self.page_id),
        }
    }
}

/// The parent of the given kind with the given id, and no other id.
pub open spec fn parent_of(parent_type: ParentType, id: Seq<char>) -> PageParentView {
    match parent_type {
        ParentType::DatabaseId => PageParentView {
            parent_type,
            database_id: Some(id),
            data_source_id: None,
            page_id: None,
        },
        ParentType::DataSourceId => PageParentView {
            parent_type,
            database_id: None,
            data_source_id: Some(id),
            page_id: None,
        },
        ParentType::PageId => PageParentView {
            parent_type,
            database_id: None,
            data_source_id: None,
            page_id: Some(id),
        },
    }
}

/// The document that describes a parent: its `type` and the three ids,
/// `null` where one is missing.
pub open spec fn parent_document(parent: PageParentView) -> JsonView {
    JsonView::Object(
        seq![
            member("type"@, JsonView::Str(parent_type_name(parent.parent_type))),
            member("database_id"@, text_or_null(parent.database_id)),
            member("data_source_id"@, text_or_null(parent.data_source_id)),
            member("page_id"@, text_or_null(parent.page_id)),
        ],
    )
}

/// The parent that a document describes: its `type`, which must be the
/// wire name of a kind of parent, and the ids that it gives.
pub open spec fn decode_parent(doc: JsonView) -> Result<PageParentView, DecodeErrorView> {
    let tag = require_text(doc, "type"@);
    let database_id = optional_text(doc, "database_id"@);
    let data_source_id = optional_text(doc, "data_source_id"@);
    let page_id = optional_text(doc, "page_id"@);
    if tag is Err {
        Err(tag->Err_0)
    } else if parent_type_named(tag->Ok_0) is None {
        Err(DecodeErrorView::WrongType("type"@))
    } else if database_id is Err {
        Err(database_id->Err_0)
    } else if data_source_id is Err {
        Err(data_source_id->Err_0)
    } else if page_id is Err {
        Err(page_id->Err_0)
    } else {
        Ok(
            PageParentView {
                parent_type: parent_type_named(tag->Ok_0)->0,
                database_id: database_id->Ok_0,
                data_source_id: data_source_id->Ok_0,
                page_id: page_id->Ok_0,
            },
        )
    }
}

impl Clone for PageParent {
    fn clone(&self) -> (res: Self)
        ensures
            res@ == self@,
    {
        PageParent {
            parent_type: self.parent_type,
            database_id: clone_optional(&self.database_id),
            data_source_id: clone_optional(&self.data_source_id),
            page_id: clone_optional(&self.page_id),
        }
    }
}

impl PageParent {
    /// The parent that a word and an id name: `page` a page, `database` a
    /// database, any other word a data source.
    pub fn new(type_str: &str, id: &str) -> (res: PageParent)
        ensures
            res@ == parent_of(parent_type_of(type_str@), id@),
    {
        let parent_type: ParentType = ParentType::from(type_str);
        match parent_type {
            ParentType::DataSourceId => Self::new_datasource(id),
            ParentType::PageId => Self::new_page(id),
            ParentType::DatabaseId => Self::new_database(id),
        }
    }

    /// The data source with the given id, as a parent.
    pub fn new_datasource(id: &str) -> (res: PageParent)
        ensures
            res@ == parent_of(ParentType::DataSourceId, id@),
    {
        PageParent {
            parent_type: ParentType::DataSourceId,
            database_id: None,
            data_source_id: Some(String::from_str(id)),
            page_id: None,
        }
    }

    /// The database with the given id, as a parent.
    pub fn new_database(id: &str) -> (res: PageParent)
        ensures
            res@ == parent_of(ParentType::DatabaseId, id@),
    {
        PageParent {
            parent_type: ParentType::DatabaseId,
            database_id: Some(String::from_str(id)),
            data_source_id: None,
            page_id: None,
        }
    }

    /// The page with the given id, as a parent.
    pub fn new_page(id: &str) -> (res: PageParent)
        ensures
            res@ == parent_of(ParentType::PageId, id@),
    {
        PageParent {
            parent_type: ParentType::PageId,
            database_id: None,
            data_source_id: None,
            page_id: Some(String::from_str(id)),
        }
    }

    /// The kind of the parent.
    pub fn get_type(&self) -> (res: ParentType)
        ensures
            res == self@.parent_type,
    {
        self.parent_type
    }

    /// Reads a parent from its document.
    pub fn decode(doc: &Json) -> (res: Result<PageParent, DecodeError>)
        ensures
            result_view(res) == decode_parent(doc@),
    {
        let tag = match text_field(doc, "type") {
            Ok(tag) => tag,
            Err(error) => {
                return Err(error);
            },
        };
        let parent_type = match ParentType::from_name(tag) {
            Some(parent_type) => parent_type,
            None => {
                return Err(DecodeError::WrongType(String::from_str("type")));
            },
        };
        let database_id = match optional_text_field(doc, "database_id") {
            Ok(id) => owned(id),
            Err(error) => {
                return Err(error);
            },
        };
        let data_source_id = match optional_text_field(doc, "data_source_id") {
            Ok(id) => owned(id),
            Err(error) => {
                return Err(error);
            },
        };
        let page_id = match optional_text_field(doc, "page_id") {
            Ok(id) => owned(id),
            Err(error) => {
                return Err(error);
            },
        };
        Ok(PageParent { parent_type, database_id, data_source_id, page_id })
    }

    /// The document that describes the parent.
    pub fn to_json(&self) -> (res: Json)
        ensures
            res@ == parent_document(self@),
    {
        let mut members: Vec<Member> = Vec::new();
        members.push(Member::new("type", Json::string(self.parent_type.as_str())));
        members.push(Member::new("database_id", optional_string(&self.database_id)));
        members.push(Member::new("data_source_id", optional_string(&self.data_source_id)));
        members.push(Member::new("page_id", optional_string(&self.page_id)));
        assert(member_views(members@) =~= parent_document(self@)->Object_0);
        Json::object(members)
    }
}

/// A page as the remote service gives it: its id, its place and state, who
/// made and edited it and when, and its properties, each read as its kind
/// asks.
#[derive(Debug, PartialEq, Eq)]
pub struct Page {
    id: String,
    object: Option<String>,
    in_trash: Option<bool>,
    is_locked: Option<bool>,
    archived: bool,
    cover: Option<Cover>,
    icon: Option<Icon>,
    parent: PageParent,
    properties: Vec<Property>,
    public_url: Option<String>,
    url: String,
    created_by: EditorInfo,
    created_time: Timestamp,
    last_edited_by: EditorInfo,
    last_edited_time: Timestamp,
}

/// The mathematical value of a [`Page`].
pub struct PageView {
    pub id: Seq<char>,
    pub object: Option<Seq<char>>,
    pub in_trash: Option<bool>,
    pub is_locked: Option<bool>,
    pub archived: bool,
    pub cover: Option<CoverView>,
    pub icon: Option<IconView>,
    pub parent: PageParentView,
    pub properties: Seq<PropertyView>,
    pub public_url: Option<Seq<char>>,
    pub url: Seq<char>,
    pub created_by: EditorInfoView,
    pub created_time: Timestamp,
    pub last_edited_by: EditorInfoView,
    pub last_edited_time: Timestamp,
}

impl View for Page {
    type V = PageView;

    closed spec fn view(&self) -> PageView {
        PageView {
            id: self.id@,
            object: option_view(self.object),
            in_trash: self.in_trash,
            is_locked: self.is_locked,
            archived: self.archived,
            cover: option_view(self.cover),
            icon: option_view(self.icon),
            parent: self.parent@,
            properties: views(self.properties@),
            public_url: option_view(self.public_url),
            url: self.url@,
            created_by: self.created_by@,
            created_time: self.created_time,
            last_edited_by: self.last_edited_by@,
            last_edited_time: self.last_edited_time,
        }
    }
}

/// The properties of a page: the members of its `properties`, which must
/// be an object, each read under the name of its member.
pub open spec fn decode_page_properties(doc: JsonView) -> Result<
    Seq<PropertyView>,
    DecodeErrorView,
> {
    match require_members(doc, "properties"@) {
        Err(error) => Err(error),
        Ok(members) => decode_properties(members),
    }
}

/// The page that a document describes. The members are read in the order
/// in which they stand here, and the first that is missing or of the wrong
/// kind decides the error.
pub open spec fn decode_page(doc: JsonView) -> Result<PageView, DecodeErrorView> {
    let id = require_text(doc, "id"@);
    let object = optional_text(doc, "object"@);
    let in_trash = optional_flag(doc, "in_trash"@);
    let is_locked = optional_flag(doc, "is_locked"@);
    let archived = require_flag(doc, "archived"@);
    let cover = optional_cover(doc, "cover"@);
    let icon = optional_icon(doc, "icon"@);
    let parent = require_record(doc, "parent"@, |inner: JsonView| decode_parent(inner));
    let properties = decode_page_properties(doc);
    let public_url = optional_text(doc, "public_url"@);
    let url = require_text(doc, "url"@);
    let created_by = require_record(doc, "created_by"@, |inner: JsonView| decode_editor(inner));
    let created_time = require_instant(doc, "created_time"@);
    let last_edited_by = require_record(
        doc,
        "last_edited_by"@,
        |inner: JsonView| decode_editor(inner),
    );
    let last_edited_time = require_instant(doc, "last_edited_time"@);
    if id is Err {
        Err(id->Err_0)
    } else if object is Err {
        Err(object->Err_0)
    } else if in_trash is Err {
        Err(in_trash->Err_0)
    } else if is_locked is Err {
        Err(is_locked->Err_0)
    } else if archived is Err {
        Err(archived->Err_0)
    } else if cover is Err {
        Err(cover->Err_0)
    } else if icon is Err {
        Err(icon->Err_0)
    } else if parent is Err {
        Err(parent->Err_0)
    } else if properties is Err {
        Err(properties->Err_0)
    } else if public_url is Err {
        Err(public_url->Err_0)
    } else if url is Err {
        Err(url->Err_0)
    } else if created_by is Err {
        Err(created_by->Err_0)
    } else if created_time is Err {
        Err(created_time->Err_0)
    } else if last_edited_by is Err {
        Err(last_edited_by->Err_0)
    } else if last_edited_time is Err {
        Err(last_edited_time->Err_0)
    } else {
        Ok(
            PageView {
                id: id->Ok_0,
                object: object->Ok_0,
                in_trash: in_trash->Ok_0,
                is_locked: is_locked->Ok_0,
                archived: archived->Ok_0,
                cover: cover->Ok_0,
                icon: icon->Ok_0,
                parent: parent->Ok_0,
                properties: properties->Ok_0,
                public_url: public_url->Ok_0,
                url: url->Ok_0,
                created_by: created_by->Ok_0,
                created_time: created_time->Ok_0,
                last_edited_by: last_edited_by->Ok_0,
                last_edited_time: last_edited_time->Ok_0,
            },
        )
    }
}

impl FromJson for Page {
    open spec fn read(doc: JsonView) -> Result<PageView, DecodeErrorView> {
        decode_page(doc)
    }

    fn from_json(doc: &Json) -> (res: Result<Page, DecodeError>) {
        Page::decode(doc)
    }
}

impl Page {
    /// Reads a page from its document.
    pub fn decode(doc: &Json) -> (res: Result<Page, DecodeError>)
        ensures
            result_view(res) == decode_page(doc@),
    {
        let id = match text_field(doc, "id") {
            Ok(id) => String::from_str(id),
            Err(error) => {
                return Err(error);
            },
        };
        let object = match optional_text_field(doc, "object") {
            Ok(object) => owned(object),
            Err(error) => {
                return Err(error);
            },
        };
        let in_trash = match optional_flag_field(doc, "in_trash") {
            Ok(flag) => flag,
            Err(error) => {
                return Err(error);
            },
        };
        let is_locked = match optional_flag_field(doc, "is_locked") {
            Ok(flag) => flag,
            Err(error) => {
                return Err(error);
            },
        };
        let archived = match flag_field(doc, "archived") {
            Ok(flag) => flag,
            Err(error) => {
                return Err(error);
            },
        };
        let cover = match cover_field(doc, "cover") {
            Ok(cover) => cover,
            Err(error) => {
                return Err(error);
            },
        };
        let icon = match icon_field(doc, "icon") {
            Ok(icon) => icon,
            Err(error) => {
                return Err(error);
            },
        };
        let parent_doc = match field(doc, "parent") {
            Ok(parent_doc) => parent_doc,
            Err(error) => {
                return Err(error);
            },
        };
        let parent = match PageParent::decode(parent_doc) {
            Ok(parent) => parent,
            Err(error) => {
                return Err(error);
            },
        };
        let members = match members_field(doc, "properties") {
            Ok(members) => members,
            Err(error) => {
                return Err(error);
            },
        };
        let properties = match Property::decode_all(members) {
            Ok(properties) => properties,
            Err(error) => {
                return Err(error);
            },
        };
        let public_url = match optional_text_field(doc, "public_url") {
            Ok(public_url) => owned(public_url),
            Err(error) => {
                return Err(error);
            },
        };
        let url = match text_field(doc, "url") {
            Ok(url) => String::from_str(url),
            Err(error) => {
                return Err(error);
            },
        };
        let created_by_doc = match field(doc, "created_by") {
            Ok(created_by_doc) => created_by_doc,
            Err(error) => {
                return Err(error);
            },
        };
        let created_by = match EditorInfo::decode(created_by_doc) {
            Ok(created_by) => created_by,
            Err(error) => {
                return Err(error);
            },
        };
        let created_time = match instant_field(doc, "created_time") {
            Ok(created_time) => created_time,
            Err(error) => {
                return Err(error);
            },
        };
        let last_edited_by_doc = match field(doc, "last_edited_by") {
            Ok(last_edited_by_doc) => last_edited_by_doc,
            Err(error) => {
                return Err(error);
            },
        };
        let last_edited_by = match EditorInfo::decode(last_edited_by_doc) {
            Ok(last_edited_by) => last_edited_by,
            Err(error) => {
                return Err(error);
            },
        };
        let last_edited_time = match instant_field(doc, "last_edited_time") {
            Ok(last_edited_time) => last_edited_time,
            Err(error) => {
                return Err(error);
            },
        };
        Ok(
            Page {
                id,
                object,
                in_trash,
                is_locked,
                archived,
                cover,
                icon,
                parent,
                properties,
                public_url,
                url,
                created_by,
                created_time,
                last_edited_by,
                last_edited_time,
            },
        )
    }

    /// The id of the page.
    pub fn get_id(&self) -> (res: &str)
        ensures
            res@ == self@.id,
    {
        self.id.as_str()
    }

    /// The properties of the page, in the order of the wire.
    pub fn get_properties(&self) -> (res: Vec<Property>)
        ensures
            views(res@) == self@.properties,
    {
        Property::clone_all(&self.properties)
    }

    /// The address of the page.
    pub fn get_url(&self) -> (res: &str)
        ensures
            res@ == self@.url,
    {
        self.url.as_str()
    }

    /// When the page was made.
    pub fn get_created_time(&self) -> (res: Timestamp)
        ensures
            res == self@.created_time,
    {
        self.created_time
    }

    /// When the page was last edited.
    pub fn get_last_edited_time(&self) -> (res: Timestamp)
        ensures
            res == self@.last_edited_time,
    {
        self.last_edited_time
    }

    /// Whether the page is archived.
    pub fn is_archived(&self) -> (res: bool)
        ensures
            res == self@.archived,
    {
        self.archived
    }

    /// What the page hangs under.
    pub fn get_parent(&self) -> (res: &PageParent)
        ensures
            res@ == self@.parent,
    {
        &self.parent
    }
}

} // verus!
