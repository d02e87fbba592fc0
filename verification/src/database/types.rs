use vstd::prelude::*;
use vstd::string::StringExecFns;
use crate::decode::{optional_text, optional_text_field, require_text, text_field, FromJson};
use crate::errors::{DecodeError, DecodeErrorView};
use crate::json::{Json, JsonView};
use crate::text::{option_view, owned, result_view};

verus! {

/// A data source of a database: its id and its name.
#[derive(Debug, PartialEq, Eq)]
pub struct DataSource {
    id: String,
    name: String,
}

/// The mathematical value of a [`DataSource`].
pub struct DataSourceView {
    pub id: Seq<char>,
    pub name: Seq<char>,
}

impl View for DataSource {
    type V = DataSourceView;

    closed spec fn view(&self) -> DataSourceView {
        DataSourceView { id: self.id@, name: self.name@ }
    }
}

/// The data source that a document describes: its `id` and its `name`,
/// both strings.
pub open spec fn decode_data_source(doc: JsonView) -> Result<DataSourceView, DecodeErrorView> {
    match require_text(doc, "id"@) {
        Err(error) => Err(error),
        Ok(id) => match require_text(doc, "name"@) {
            Err(error) => Err(error),
            Ok(name) => Ok(DataSourceView { id, name }),
        },
    }
}

impl FromJson for DataSource {
    open spec fn read(doc: JsonView) -> Result<DataSourceView, DecodeErrorView> {
        decode_data_source(doc)
    }

    fn from_json(doc: &Json) -> (res: Result<DataSource, DecodeError>) {
        DataSource::decode(doc)
    }
}

impl DataSource {
    /// Reads a data source from its document.
    pub fn decode(doc: &Json) -> (res: Result<DataSource, DecodeError>)
        ensures
            result_view(res) == decode_data_source(doc@),
    {
        let id = match text_field(doc, "id") {
            Ok(id) => id,
            Err(error) => {
                return Err(error);
            },
        };
        match text_field(doc, "name") {
            Err(error) => Err(error),
            Ok(name) => Ok(DataSource { id: String::from_str(id), name: String::from_str(name) }),
        }
    }

    /// The id of the data source.
    pub fn get_id(&self) -> (res: &str)
        ensures
            res@ == self@.id,
    {
        self.id.as_str()
    }

    /// The name of the data source.
    pub fn get_name(&self) -> (res: &str)
        ensures
            res@ == self@.name,
    {
        self.name.as_str()
    }
}

/// What a database hangs under: the kind of parent and, for a page, its id.
#[derive(Debug, PartialEq, Eq)]
pub struct DatabaseParent {
    parent_type: String,
    page_id: Option<String>,
}

/// The mathematical value of a [`DatabaseParent`].
pub struct DatabaseParentView {
    pub parent_type: Seq<char>,
    pub page_id: Option<Seq<char>>,
}

impl View for DatabaseParent {
    type V = DatabaseParentView;

    closed spec fn view(&self) -> DatabaseParentView {
        DatabaseParentView { parent_type: self.parent_type@, page_id: option_view(self.page_id) }
    }
}

/// The parent that a document describes: its `type`, a string, and its
/// `page_id`, a string where there is one.
pub open spec fn decode_database_parent(doc: JsonView) -> Result<
    DatabaseParentView,
    DecodeErrorView,
> {
    match require_text(doc, "type"@) {
        Err(error) => Err(error),
        Ok(parent_type) => match optional_text(doc, "page_id"@) {
            Err(error) => Err(error),
            Ok(page_id) => Ok(DatabaseParentView { parent_type, page_id }),
        },
    }
}

impl DatabaseParent {
    /// Reads the parent of a database from its document.
    pub fn decode(doc: &Json) -> (res: Result<DatabaseParent, DecodeError>)
        ensures
            result_view(res) == decode_database_parent(doc@),
    {
        let parent_type = match text_field(doc, "type") {
            Ok(parent_type) => parent_type,
            Err(error) => {
                return Err(error);
            },
        };
        match optional_text_field(doc, "page_id") {
            Err(error) => Err(error),
            Ok(page_id) => Ok(
                DatabaseParent { parent_type: String::from_str(parent_type), page_id: owned(page_id) },
            ),
        }
    }

    /// The kind of parent, as the wire names it.
    pub fn get_type(&self) -> (res: &str)
        ensures
            res@ == self@.parent_type,
    {
        self.parent_type.as_str()
    }

    /// The id of the page that the database hangs under, if it is a page.
    pub fn get_page_id(&self) -> (res: Option<&str>)
        ensures
            option_view(res) == self@.page_id,
    {
        match &self.page_id {
            Some(id) => Some(id.as_str()),
            None => None,
        }
    }
}

} // verus!
