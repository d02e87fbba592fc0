use vstd::prelude::*;
use vstd::string::StringExecFns;
use crate::decode::{
    decode_all, lemma_decode_all_fails_on, lemma_decode_all_step, require_text, text_field,
};
use crate::errors::{DecodeError, DecodeErrorView};
use crate::json::{member_views, Json, JsonView, Member, MemberView};
use crate::text::{result_view, str_eq, views};

verus! {

/// The kinds of property that a data source can declare: a closed set, one
/// tag for each kind that the wire format names.
#[derive(Debug, Clone, Copy, PartialEq, Eq, Structural)]
pub enum PropertyInfo {
    ID,
    Verification,
    Title,
    RichText,
    Number,
    Checkbox,
    Date,
    Timestamp,
    Status,
    Select,
    MultiSelect,
    Url,
    Place,
    People,
    PhoneNumber,
    Files,
    Formula,
    Relation,
    Rollup,
    CreatedTime,
    LastEditedTime,
}

/// The name by which the wire format calls a kind.
pub open spec fn kind_name(kind: PropertyInfo) -> Seq<char> {
    match kind {
        PropertyInfo::ID => "id"@,
        PropertyInfo::Title => "title"@,
        PropertyInfo::Date => "date"@,
        PropertyInfo::Checkbox => "checkbox"@,
        PropertyInfo::Files => "files"@,
        PropertyInfo::MultiSelect => "multi_select"@,
        PropertyInfo::Number => "number"@,
        PropertyInfo::People => "people"@,
        PropertyInfo::PhoneNumber => "phone_number"@,
        PropertyInfo::Relation => "relation"@,
        PropertyInfo::RichText => "rich_text"@,
        PropertyInfo::Select => "select"@,
        PropertyInfo::Status => "status"@,
        PropertyInfo::Timestamp => "timestamp"@,
        PropertyInfo::Verification => "verification"@,
        PropertyInfo::Place => "place"@,
        PropertyInfo::Url => "url"@,
        PropertyInfo::Formula => "formula"@,
        PropertyInfo::Rollup => "rollup"@,
        PropertyInfo::CreatedTime => "created_time"@,
        PropertyInfo::LastEditedTime => "last_edited_time"@,
    }
}

/// The kind that a wire name calls; `None` for a name that calls none. The
/// names are matched letter for letter, capitals included.
pub open spec fn kind_named(name: Seq<char>) -> Option<PropertyInfo> {
    if name == "title"@ {
        Some(PropertyInfo::Title)
    } else if name == "date"@ {
        Some(PropertyInfo::Date)
    } else if name == "checkbox"@ {
        Some(PropertyInfo::Checkbox)
    } else if name == "files"@ {
        Some(PropertyInfo::Files)
    } else if name == "id"@ {
        Some(PropertyInfo::ID)
    } else if name == "multi_select"@ {
        Some(PropertyInfo::MultiSelect)
    } else if name == "number"@ {
        Some(PropertyInfo::Number)
    } else if name == "people"@ {
        Some(PropertyInfo::People)
    } else if name == "phone_number"@ {
        Some(PropertyInfo::PhoneNumber)
    } else if name == "relation"@ {
        Some(PropertyInfo::Relation)
    } else if name == "rich_text"@ {
        Some(PropertyInfo::RichText)
    } else if name == "select"@ {
        Some(PropertyInfo::Select)
    } else if name == "status"@ {
        Some(PropertyInfo::Status)
    } else if name == "timestamp"@ {
        Some(PropertyInfo::Timestamp)
    } else if name == "verification"@ {
        Some(PropertyInfo::Verification)
    } else if name == "place"@ {
        Some(PropertyInfo::Place)
    } else if name == "url"@ {
        Some(PropertyInfo::Url)
    } else if name == "formula"@ {
        Some(PropertyInfo::Formula)
    } else if name == "rollup"@ {
        Some(PropertyInfo::Rollup)
    } else if name == "created_time"@ {
        Some(PropertyInfo::CreatedTime)
    } else if name == "last_edited_time"@ {
        Some(PropertyInfo::LastEditedTime)
    } else {
        None
    }
}

/// The kind that a property's document declares by its `type` member.
pub open spec fn decode_kind(doc: JsonView) -> Result<PropertyInfo, DecodeErrorView> {
    match doc.field("type"@) {
        None => Err(DecodeErrorView::MissingField("type"@)),
        Some(JsonView::Str(raw)) => match kind_named(raw) {
            Some(kind) => Ok(kind),
            None => Err(DecodeErrorView::UnknownPropertyKind(raw)),
        },
        Some(_) => Err(DecodeErrorView::WrongType("type"@)),
    }
}

/// The length and the first two characters of a name: enough to tell the
/// wire names of the kinds apart.
pub open spec fn name_head(name: Seq<char>) -> (nat, char, char) {
    (name.len(), name[0], name[1])
}

/// Every kind is found again under its own name: no two kinds share one.
pub proof fn lemma_kind_name_is_stable(kind: PropertyInfo)
    ensures
        kind_named(kind_name(kind)) == Some(kind),
{
    reveal_strlit("id");
    reveal_strlit("title");
    reveal_strlit("date");
    reveal_strlit("checkbox");
    reveal_strlit("files");
    reveal_strlit("multi_select");
    reveal_strlit("number");
    reveal_strlit("people");
    reveal_strlit("phone_number");
    reveal_strlit("relation");
    reveal_strlit("rich_text");
    reveal_strlit("select");
    reveal_strlit("status");
    reveal_strlit("timestamp");
    reveal_strlit("verification");
    reveal_strlit("place");
    reveal_strlit("url");
    reveal_strlit("formula");
    reveal_strlit("rollup");
    reveal_strlit("created_time");
    reveal_strlit("last_edited_time");
    assert(name_head("id"@) == (2nat, 'i', 'd'));
    assert(name_head("title"@) == (5nat, 't', 'i'));
    assert(name_head("date"@) == (4nat, 'd', 'a'));
    assert(name_head("checkbox"@) == (8nat, 'c', 'h'));
    assert(name_head("files"@) == (5nat, 'f', 'i'));
    assert(name_head("multi_select"@) == (12nat, 'm', 'u'));
    assert(name_head("number"@) == (6nat, 'n', 'u'));
    assert(name_head("people"@) == (6nat, 'p', 'e'));
    assert(name_head("phone_number"@) == (12nat, 'p', 'h'));
    assert(name_head("relation"@) == (8nat, 'r', 'e'));
    assert(name_head("rich_text"@) == (9nat, 'r', 'i'));
    assert(name_head("select"@) == (6nat, 's', 'e'));
    assert(name_head("status"@) == (6nat, 's', 't'));
    assert(name_head("timestamp"@) == (9nat, 't', 'i'));
    assert(name_head("verification"@) == (12nat, 'v', 'e'));
    assert(name_head("place"@) == (5nat, 'p', 'l'));
    assert(name_head("url"@) == (3nat, 'u', 'r'));
    assert(name_head("formula"@) == (7nat, 'f', 'o'));
    assert(name_head("rollup"@) == (6nat, 'r', 'o'));
    assert(name_head("created_time"@) == (12nat, 'c', 'r'));
    assert(name_head("last_edited_time"@) == (16nat, 'l', 'a'));
}

/// The name of a kind is four characters long only for a date.
pub proof fn lemma_kind_name_lengths(kind: PropertyInfo)
    ensures
        kind_name(kind).len() == 4 ==> kind == PropertyInfo::Date,
{
    reveal_strlit("id");
    reveal_strlit("title");
    reveal_strlit("date");
    reveal_strlit("checkbox");
    reveal_strlit("files");
    reveal_strlit("multi_select");
    reveal_strlit("number");
    reveal_strlit("people");
    reveal_strlit("phone_number");
    reveal_strlit("relation");
    reveal_strlit("rich_text");
    reveal_strlit("select");
    reveal_strlit("status");
    reveal_strlit("timestamp");
    reveal_strlit("verification");
    reveal_strlit("place");
    reveal_strlit("url");
    reveal_strlit("formula");
    reveal_strlit("rollup");
    reveal_strlit("created_time");
    reveal_strlit("last_edited_time");
}

/// A name calls a kind only if it is that kind's own name.
pub proof fn lemma_kind_named_is_exact(name: Seq<char>)
    ensures
        match kind_named(name) {
            Some(kind) => kind_name(kind) == name,
            None => forall|kind: PropertyInfo| kind_name(kind) != name,
        },
{
    if kind_named(name) is None {
        assert forall|kind: PropertyInfo| kind_name(kind) != name by {
            lemma_kind_name_is_stable(kind);
        }
    }
}

impl PropertyInfo {
    /// The name by which the wire format calls this kind.
    pub fn to_string(&self) -> (res: String)
        ensures
            res@ == kind_name(*self),
    {
        let name = match self {
            PropertyInfo::ID => "id",
            PropertyInfo::Title => "title",
            PropertyInfo::Date => "date",
            PropertyInfo::Checkbox => "checkbox",
            PropertyInfo::Files => "files",
            PropertyInfo::MultiSelect => "multi_select",
            PropertyInfo::Number => "number",
            PropertyInfo::People => "people",
            PropertyInfo::PhoneNumber => "phone_number",
            PropertyInfo::Relation => "relation",
            PropertyInfo::RichText => "rich_text",
            PropertyInfo::Select => "select",
            PropertyInfo::Status => "status",
            PropertyInfo::Timestamp => "timestamp",
            PropertyInfo::Verification => "verification",
            PropertyInfo::Place => "place",
            PropertyInfo::Url => "url",
            PropertyInfo::Formula => "formula",
            PropertyInfo::Rollup => "rollup",
            PropertyInfo::CreatedTime => "created_time",
            PropertyInfo::LastEditedTime => "last_edited_time",
        };
        String::from_str(name)
    }

    /// The kind that a wire name calls, if it calls one.
    pub fn from_name(name: &str) -> (res: Option<PropertyInfo>)
        ensures
            res == kind_named(name@),
    {
        if str_eq(name, "title") {
            Some(PropertyInfo::Title)
        } else if str_eq(name, "date") {
            Some(PropertyInfo::Date)
        } else if str_eq(name, "checkbox") {
            Some(PropertyInfo::Checkbox)
        } else if str_eq(name, "files") {
            Some(PropertyInfo::Files)
        } else if str_eq(name, "id") {
            Some(PropertyInfo::ID)
        } else if str_eq(name, "multi_select") {
            Some(PropertyInfo::MultiSelect)
        } else if str_eq(name, "number") {
            Some(PropertyInfo::Number)
        } else if str_eq(name, "people") {
            Some(PropertyInfo::People)
        } else if str_eq(name, "phone_number") {
            Some(PropertyInfo::PhoneNumber)
        } else if str_eq(name, "relation") {
            Some(PropertyInfo::Relation)
        } else if str_eq(name, "rich_text") {
            Some(PropertyInfo::RichText)
        } else if str_eq(name, "select") {
            Some(PropertyInfo::Select)
        } else if str_eq(name, "status") {
            Some(PropertyInfo::Status)
        } else if str_eq(name, "timestamp") {
            Some(PropertyInfo::Timestamp)
        } else if str_eq(name, "verification") {
            Some(PropertyInfo::Verification)
        } else if str_eq(name, "place") {
            Some(PropertyInfo::Place)
        } else if str_eq(name, "url") {
            Some(PropertyInfo::Url)
        } else if str_eq(name, "formula") {
            Some(PropertyInfo::Formula)
        } else if str_eq(name, "rollup") {
            Some(PropertyInfo::Rollup)
        } else if str_eq(name, "created_time") {
            Some(PropertyInfo::CreatedTime)
        } else if str_eq(name, "last_edited_time") {
            Some(PropertyInfo::LastEditedTime)
        } else {
            None
        }
    }

    /// Reads the kind that a property's document declares by its `type`
    /// member. A name that calls no kind is an error and is given back in
    /// it: no kind stands in for an unknown one.
    pub fn decode(doc: &Json) -> (res: Result<PropertyInfo, DecodeError>)
        ensures
            match res {
                Ok(kind) => decode_kind(doc@) == Ok::<PropertyInfo, DecodeErrorView>(kind),
                Err(error) => decode_kind(doc@) == Err::<PropertyInfo, DecodeErrorView>(error@),
            },
    {
        match doc.get("type") {
            None => Err(DecodeError::MissingField(String::from_str("type"))),
            Some(tag) => match tag.as_str() {
                None => Err(DecodeError::WrongType(String::from_str("type"))),
                Some(raw) => match PropertyInfo::from_name(raw) {
                    Some(kind) => Ok(kind),
                    None => Err(DecodeError::UnknownPropertyKind(String::from_str(raw))),
                },
            },
        }
    }
}

/// What a data source hangs under: the kind of parent, and the id of the
/// database.
#[derive(Debug, PartialEq, Eq)]
pub struct DataSourceParent {
    parent_type: String,
    database_id: String,
}

/// The mathematical value of a [`DataSourceParent`].
pub struct DataSourceParentView {
    pub parent_type: Seq<char>,
    pub database_id: Seq<char>,
}

impl View for DataSourceParent {
    type V = DataSourceParentView;

    closed spec fn view(&self) -> DataSourceParentView {
        DataSourceParentView { parent_type: self.parent_type@, database_id: self.database_id@ }
    }
}

/// The parent that a document describes: its `type` and its `database_id`,
/// both strings.
pub open spec fn decode_data_source_parent(doc: JsonView) -> Result<
    DataSourceParentView,
    DecodeErrorView,
> {
    match require_text(doc, "type"@) {
        Err(error) => Err(error),
        Ok(parent_type) => match require_text(doc, "database_id"@) {
            Err(error) => Err(error),
            Ok(database_id) => Ok(DataSourceParentView { parent_type, database_id }),
        },
    }
}

impl DataSourceParent {
    /// Reads the parent of a data source from its document.
    pub fn decode(doc: &Json) -> (res: Result<DataSourceParent, DecodeError>)
        ensures
            result_view(res) == decode_data_source_parent(doc@),
    {
        let parent_type = match text_field(doc, "type") {
            Ok(parent_type) => parent_type,
            Err(error) => {
                return Err(error);
            },
        };
        match text_field(doc, "database_id") {
            Err(error) => Err(error),
            Ok(database_id) => Ok(
                DataSourceParent {
                    parent_type: String::from_str(parent_type),
                    database_id: String::from_str(database_id),
                },
            ),
        }
    }

    /// The kind of parent, as the wire names it.
    pub fn get_type(&self) -> (res: &str)
        ensures
            res@ == self@.parent_type,
    {
        self.parent_type.as_str()
    }

    /// The id of the database that the data source belongs to.
    pub fn get_database_id(&self) -> (res: &str)
        ensures
            res@ == self@.database_id,
    {
        self.database_id.as_str()
    }
}

/// A property as a data source declares it: its id, its name and its kind,
/// without a value.
#[derive(Debug, PartialEq, Eq)]
pub struct Property {
    id: String,
    name: String,
    property_info: PropertyInfo,
}

/// The mathematical value of a [`Property`].
pub struct PropertyView {
    pub id: Seq<char>,
    pub name: Seq<char>,
    pub kind: PropertyInfo,
}

impl View for Property {
    type V = PropertyView;

    closed spec fn view(&self) -> PropertyView {
        PropertyView { id: self.id@, name: self.name@, kind: self.property_info }
    }
}

/// The property that a document declares: the kind that its `type` names,
/// then its `id` and its `name`, both strings.
pub open spec fn decode_declared(doc: JsonView) -> Result<PropertyView, DecodeErrorView> {
    match decode_kind(doc) {
        Err(error) => Err(error),
        Ok(kind) => match require_text(doc, "id"@) {
            Err(error) => Err(error),
            Ok(id) => match require_text(doc, "name"@) {
                Err(error) => Err(error),
                Ok(name) => Ok(PropertyView { id, name, kind }),
            },
        },
    }
}

/// The properties that the members of an object declare, one for each
/// member, in the order of the members.
pub open spec fn decode_all_declared(members: Seq<MemberView>) -> Result<
    Seq<PropertyView>,
    DecodeErrorView,
> {
    decode_all(members, |entry: MemberView| decode_declared(entry.value))
}

impl Clone for Property {
    fn clone(&self) -> (res: Self)
        ensures
            res@ == self@,
    {
        Property {
            id: self.id.clone(),
            name: self.name.clone(),
            property_info: self.property_info,
        }
    }
}

impl Property {
    /// Reads the property that a document declares.
    pub fn from(value: &Json) -> (res: Result<Property, DecodeError>)
        ensures
            result_view(res) == decode_declared(value@),
    {
        let property_info = match PropertyInfo::decode(value) {
            Ok(property_info) => property_info,
            Err(error) => {
                return Err(error);
            },
        };
        let id = match text_field(value, "id") {
            Ok(id) => id,
            Err(error) => {
                return Err(error);
            },
        };
        match text_field(value, "name") {
            Err(error) => Err(error),
            Ok(name) => Ok(
                Property { id: String::from_str(id), name: String::from_str(name), property_info },
            ),
        }
    }

    /// Reads the properties that the members of an object declare.
    pub fn decode_all(members: &Vec<Member>) -> (res: Result<Vec<Property>, DecodeError>)
        ensures
            match res {
                Ok(properties) => decode_all_declared(member_views(members@)) == Ok::<
                    Seq<PropertyView>,
                    DecodeErrorView,
                >(views(properties@)),
                Err(error) => decode_all_declared(member_views(members@)) == Err::<
                    Seq<PropertyView>,
                    DecodeErrorView,
                >(error@),
            },
    {
        let mut properties: Vec<Property> = Vec::new();
        let mut i: usize = 0;
        let ghost one = |entry: MemberView| decode_declared(entry.value);
        assert(member_views(members@).subrange(0, 0) =~= Seq::<MemberView>::empty());
        assert(views(properties@) =~= Seq::<PropertyView>::empty());
        while i < members.len()
            invariant
                i <= members@.len(),
                one == |entry: MemberView| decode_declared(entry.value),
                decode_all(member_views(members@).subrange(0, i as int), one) == Ok::<
                    Seq<PropertyView>,
                    DecodeErrorView,
                >(views(properties@)),
            decreases members@.len() - i,
        {
            proof {
                lemma_decode_all_step(member_views(members@), one, i as int);
            }
            let ghost before = views(properties@);
            match Property::from(&members[i].value) {
                Ok(property) => {
                    properties.push(property);
                    assert(views(properties@) =~= before.push(property@));
                },
                Err(error) => {
                    proof {
                        lemma_decode_all_fails_on(member_views(members@), one, i as int + 1);
                    }
                    return Err(error);
                },
            }
            i += 1;
        }
        assert(member_views(members@).subrange(0, members@.len() as int) =~= member_views(
            members@,
        ));
        Ok(properties)
    }

    /// A copy of each property of a list, in the same order.
    pub fn clone_all(properties: &Vec<Property>) -> (res: Vec<Property>)
        ensures
            views(res@) == views(properties@),
    {
        let mut copy: Vec<Property> = Vec::new();
        let mut i: usize = 0;
        while i < properties.len()
            invariant
                i <= properties@.len(),
                copy@.len() == i,
                forall|j: int| 0 <= j < i ==> copy@[j]@ == properties@[j]@,
            decreases properties@.len() - i,
        {
            copy.push(properties[i].clone());
            i += 1;
        }
        assert(views(copy@) =~= views(properties@));
        copy
    }

    /// The id of the property.
    pub fn get_id(&self) -> (res: &str)
        ensures
            res@ == self@.id,
    {
        self.id.as_str()
    }

    /// The name of the property.
    pub fn get_name(&self) -> (res: &str)
        ensures
            res@ == self@.name,
    {
        self.name.as_str()
    }

    /// The kind of the property.
    pub fn get_property_info(&self) -> (res: &PropertyInfo)
        ensures
            *res == self@.kind,
    {
        &self.property_info
    }
}

} // verus!
