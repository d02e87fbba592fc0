use vstd::prelude::*;
use vstd::string::StringExecFns;
use crate::database::types::{
    decode_database_parent, DataSource, DataSourceView, DatabaseParent, DatabaseParentView,
};
use crate::decode::{
    decode_all, field, flag_field, items_field, lemma_decode_all_fails_on,
    lemma_decode_all_step, optional_text, optional_text_field, records_field, require_flag,
    require_items, require_record, require_records, require_text, text_field,
};
use crate::errors::{DecodeError, DecodeErrorView};
use crate::json::{Json, JsonView};
use crate::time::{instant_field, require_instant, Timestamp};
use crate::text::{option_view, owned, result_view, views};
use crate::types::{
    cover_field, icon_field, optional_cover, optional_icon, Cover, CoverView, Icon, IconView,
    Title, TitleView,
};

verus! {

/// A database as the remote service describes it.
#[derive(Debug, PartialEq, Eq)]
pub struct GetDatabaseResponse {
    id: String,
    title: Vec<Title>,
    parent: DatabaseParent,
    is_inline: bool,
    in_trash: bool,
    cover: Option<Cover>,
    icon: Option<Icon>,
    public_url: Option<String>,
    data_sources: Vec<DataSource>,
    description: Vec<String>,
    url: String,
    created_time: Timestamp,
    last_edited_time: Timestamp,
}

/// The mathematical value of a [`GetDatabaseResponse`].
pub struct GetDatabaseResponseView {
    pub id: Seq<char>,
    pub title: Seq<TitleView>,
    pub parent: DatabaseParentView,
    pub is_inline: bool,
    pub in_trash: bool,
    pub cover: Option<CoverView>,
    pub icon: Option<IconView>,
    pub public_url: Option<Seq<char>>,
    pub data_sources: Seq<DataSourceView>,
    pub description: Seq<Seq<char>>,
    pub url: Seq<char>,
    pub created_time: Timestamp,
    pub last_edited_time: Timestamp,
}

impl View for GetDatabaseResponse {
    type V = GetDatabaseResponseView;

    closed spec fn view(&self) -> GetDatabaseResponseView {
        GetDatabaseResponseView {
            id: self.id@,
            title: views(self.title@),
            parent: self.parent@,
            is_inline: self.is_inline,
            in_trash: self.in_trash,
            cover: option_view(self.cover),
            icon: option_view(self.icon),
            public_url: option_view(self.public_url),
            data_sources: views(self.data_sources@),
            description: views(self.description@),
            url: self.url@,
            created_time: self.created_time,
            last_edited_time: self.last_edited_time,
        }
    }
}

/// The text of one line of a description, which must be a string.
pub open spec fn decode_line(item: JsonView) -> Result<Seq<char>, DecodeErrorView> {
    match item {
        JsonView::Str(line) => Ok(line),
        _ => Err(DecodeErrorView::WrongType("description"@)),
    }
}

/// The lines of the `description` of a document, an array of strings.
pub open spec fn decode_description(doc: JsonView) -> Result<Seq<Seq<char>>, DecodeErrorView> {
    match require_items(doc, "description"@) {
        Err(error) => Err(error),
        Ok(items) => decode_all(items, |item: JsonView| decode_line(item)),
    }
}

/// The database that a document describes. The members are read in the
/// order in which they stand here, and the first that is missing or of the
/// wrong kind decides the error.
pub open spec fn decode_database(doc: JsonView) -> Result<
    GetDatabaseResponseView,
    DecodeErrorView,
> {
    let id = require_text(doc, "id"@);
    let title = require_records::<Title>(doc, "title"@);
    let parent = require_record(doc, "parent"@, |inner: JsonView| decode_database_parent(inner));
    let is_inline = require_flag(doc, "is_inline"@);
    let in_trash = require_flag(doc, "in_trash"@);
    let cover = optional_cover(doc, "cover"@);
    let icon = optional_icon(doc, "icon"@);
    let public_url = optional_text(doc, "public_url"@);
    let data_sources = require_records::<DataSource>(doc, "data_sources"@);
    let description = decode_description(doc);
    let url = require_text(doc, "url"@);
    let created_time = require_instant(doc, "created_time"@);
    let last_edited_time = require_instant(doc, "last_edited_time"@);
    if id is Err {
        Err(id->Err_0)
    } else if title is Err {
        Err(title->Err_0)
    } else if parent is Err {
        Err(parent->Err_0)
    } else if is_inline is Err {
        Err(is_inline->Err_0)
    } else if in_trash is Err {
        Err(in_trash->Err_0)
    } else if cover is Err {
        Err(cover->Err_0)
    } else if icon is Err {
        Err(icon->Err_0)
    } else if public_url is Err {
        Err(public_url->Err_0)
    } else if data_sources is Err {
        Err(data_sources->Err_0)
    } else if description is Err {
        Err(description->Err_0)
    } else if url is Err {
        Err(url->Err_0)
    } else if created_time is Err {
        Err(created_time->Err_0)
    } else if last_edited_time is Err {
        Err(last_edited_time->Err_0)
    } else {
        Ok(
            GetDatabaseResponseView {
                id: id->Ok_0,
                title: title->Ok_0,
                parent: parent->Ok_0,
                is_inline: is_inline->Ok_0,
                in_trash: in_trash->Ok_0,
                cover: cover->Ok_0,
                icon: icon->Ok_0,
                public_url: public_url->Ok_0,
                data_sources: data_sources->Ok_0,
                description: description->Ok_0,
                url: url->Ok_0,
                created_time: created_time->Ok_0,
                last_edited_time: last_edited_time->Ok_0,
            },
        )
    }
}

/// Reads the lines of the `description` of a document.
fn description_field(doc: &Json) -> (res: Result<Vec<String>, DecodeError>)
    ensures
        match res {
            Ok(lines) => decode_description(doc@) == Ok::<Seq<Seq<char>>, DecodeErrorView>(
                views(lines@),
            ),
            Err(error) => decode_description(doc@) == Err::<Seq<Seq<char>>, DecodeErrorView>(
                error@,
            ),
        },
{
    let items = match items_field(doc, "description") {
        Ok(items) => items,
        Err(error) => {
            return Err(error);
        },
    };
    let mut lines: Vec<String> = Vec::new();
    let mut i: usize = 0;
    let ghost one = |item: JsonView| decode_line(item);
    assert(views(items@).subrange(0, 0) =~= Seq::<JsonView>::empty());
    assert(views(lines@) =~= Seq::<Seq<char>>::empty());
    while i < items.len()
        invariant
            i <= items@.len(),
            one == |item: JsonView| decode_line(item),
            require_items(doc@, "description"@) == Ok::<Seq<JsonView>, DecodeErrorView>(
                views(items@),
            ),
            decode_all(views(items@).subrange(0, i as int), one) == Ok::<
                Seq<Seq<char>>,
                DecodeErrorView,
            >(views(lines@)),
        decreases items@.len() - i,
    {
        proof {
            lemma_decode_all_step(views(items@), one, i as int);
        }
        let ghost before = views(lines@);
        match items[i].as_str() {
            Some(line) => {
                lines.push(String::from_str(line));
                assert(views(lines@) =~= before.push(line@));
            },
            None => {
                proof {
                    lemma_decode_all_fails_on(views(items@), one, i as int + 1);
                }
                return Err(DecodeError::WrongType(String::from_str("description")));
            },
        }
        i += 1;
    }
    assert(views(items@).subrange(0, items@.len() as int) =~= views(items@));
    Ok(lines)
}

impl GetDatabaseResponse {
    /// Reads a database from its document.
    pub fn decode(doc: &Json) -> (res: Result<GetDatabaseResponse, DecodeError>)
        ensures
            result_view(res) == decode_database(doc@),
    {
        let id = match text_field(doc, "id") {
            Ok(id) => String::from_str(id),
            Err(error) => {
                return Err(error);
            },
        };
        let title = match records_field::<Title>(doc, "title") {
            Ok(title) => title,
            Err(error) => {
                return Err(error);
            },
        };
        let parent_doc = match field(doc, "parent") {
            Ok(parent_doc) => parent_doc,
            Err(error) => {
                return Err(error);
            },
        };
        let parent = match DatabaseParent::decode(parent_doc) {
            Ok(parent) => parent,
            Err(error) => {
                return Err(error);
            },
        };
        let is_inline = match flag_field(doc, "is_inline") {
            Ok(flag) => flag,
            Err(error) => {
                return Err(error);
            },
        };
        let in_trash = match flag_field(doc, "in_trash") {
            Ok(flag) => flag,
            Err(error) => {
                return Err(error);
            },
        };
        let cover = match cover_field(doc, "cover") {
            Ok(cover) => cover,
            Err(error) => {
                return Err(error);
            },
        };
        let icon = match icon_field(doc, "icon") {
            Ok(icon) => icon,
            Err(error) => {
                return Err(error);
            },
        };
        let public_url = match optional_text_field(doc, "public_url") {
            Ok(public_url) => owned(public_url),
            Err(error) => {
                return Err(error);
            },
        };
        let data_sources = match records_field::<DataSource>(doc, "data_sources") {
            Ok(data_sources) => data_sources,
            Err(error) => {
                return Err(error);
            },
        };
        let description = match description_field(doc) {
            Ok(description) => description,
            Err(error) => {
                return Err(error);
            },
        };
        let url = match text_field(doc, "url") {
            Ok(url) => String::from_str(url),
            Err(error) => {
                return Err(error);
            },
        };
        let created_time = match instant_field(doc, "created_time") {
            Ok(created_time) => created_time,
            Err(error) => {
                return Err(error);
            },
        };
        let last_edited_time = match instant_field(doc, "last_edited_time") {
            Ok(last_edited_time) => last_edited_time,
            Err(error) => {
                return Err(error);
            },
        };
        Ok(
            GetDatabaseResponse {
                id,
                title,
                parent,
                is_inline,
                in_trash,
                cover,
                icon,
                public_url,
                data_sources,
                description,
                url,
                created_time,
                last_edited_time,
            },
        )
    }

    /// When it was made.
    pub fn get_created_time(&self) -> (res: Timestamp)
        ensures
            res == self@.created_time,
    {
        self.created_time
    }

    /// When it was last edited.
    pub fn get_last_edited_time(&self) -> (res: Timestamp)
        ensures
            res == self@.last_edited_time,
    {
        self.last_edited_time
    }

    /// The id of the database.
    pub fn get_id(&self) -> (res: &str)
        ensures
            res@ == self@.id,
    {
        self.id.as_str()
    }

    /// The spans of the title of the database.
    pub fn get_title(&self) -> (res: &Vec<Title>)
        ensures
            views(res@) == self@.title,
    {
        &self.title
    }

    /// The data sources of the database, in the order of the wire.
    pub fn get_data_sources(&self) -> (res: &Vec<DataSource>)
        ensures
            views(res@) == self@.data_sources,
    {
        &self.data_sources
    }

    /// The address of the database.
    pub fn get_url(&self) -> (res: &str)
        ensures
            res@ == self@.url,
    {
        self.url.as_str()
    }
}

} // verus!
