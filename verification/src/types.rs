use vstd::prelude::*;
use vstd::string::StringExecFns;
use crate::data_source::types::{decode_kind, kind_name, lemma_kind_named_is_exact, PropertyInfo};
use crate::decode::{
    decode_all, field, flag_field, lemma_decode_all_fails_on, lemma_decode_all_step,
    optional_field, optional_member, optional_text, optional_text_field, require_field,
    require_flag, require_text, text_field, FromJson,
};
use crate::errors::{DecodeError, DecodeErrorView, ValidationError};
use crate::json::{member, member_views, Json, JsonView, Member, MemberView};
use crate::text::{
    clone_optional, clone_strings, join, join_strings, option_view, parse_u16, read_u16,
    result_view, views,
};

verus! {

/// What a property of a page holds: the kind, and with it the data that the
/// kind exposes. A title, a checkbox, a date, a status, a select, a
/// multi-select and a formula carry data; every other kind, rich text
/// among them, is a bare tag that says only that the property is there.
#[derive(Debug, PartialEq, Eq)]
pub enum PropertyValue {
    ID,
    Verification,
    Title(String),
    RichText,
    Number,
    Checkbox(bool),
    Date(String, Option<String>),
    Timestamp,
    Status(String),
    Select(String),
    MultiSelect(Vec<String>),
    Url,
    Place,
    People,
    PhoneNumber,
    Files,
    Formula(String),
    Relation,
    Rollup,
    CreatedTime,
    LastEditedTime,
}

/// The mathematical value of a [`PropertyValue`].
pub enum PropertyValueView {
    ID,
    Verification,
    Title(Seq<char>),
    RichText,
    Number,
    Checkbox(bool),
    Date(Seq<char>, Option<Seq<char>>),
    Timestamp,
    Status(Seq<char>),
    Select(Seq<char>),
    MultiSelect(Seq<Seq<char>>),
    Url,
    Place,
    People,
    PhoneNumber,
    Files,
    Formula(Seq<char>),
    Relation,
    Rollup,
    CreatedTime,
    LastEditedTime,
}

impl View for PropertyValue {
    type V = PropertyValueView;

    open spec fn view(&self) -> PropertyValueView {
        match self {
            PropertyValue::ID => PropertyValueView::ID,
            PropertyValue::Verification => PropertyValueView::Verification,
            PropertyValue::Title(text) => PropertyValueView::Title(text@),
            PropertyValue::RichText => PropertyValueView::RichText,
            PropertyValue::Number => PropertyValueView::Number,
            PropertyValue::Checkbox(flag) => PropertyValueView::Checkbox(*flag),
            PropertyValue::Date(start, end) => PropertyValueView::Date(start@, option_view(*end)),
            PropertyValue::Timestamp => PropertyValueView::Timestamp,
            PropertyValue::Status(name) => PropertyValueView::Status(name@),
            PropertyValue::Select(name) => PropertyValueView::Select(name@),
            PropertyValue::MultiSelect(names) => PropertyValueView::MultiSelect(views(names@)),
            PropertyValue::Url => PropertyValueView::Url,
            PropertyValue::Place => PropertyValueView::Place,
            PropertyValue::People => PropertyValueView::People,
            PropertyValue::PhoneNumber => PropertyValueView::PhoneNumber,
            PropertyValue::Files => PropertyValueView::Files,
            PropertyValue::Formula(text) => PropertyValueView::Formula(text@),
            PropertyValue::Relation => PropertyValueView::Relation,
            PropertyValue::Rollup => PropertyValueView::Rollup,
            PropertyValue::CreatedTime => PropertyValueView::CreatedTime,
            PropertyValue::LastEditedTime => PropertyValueView::LastEditedTime,
        }
    }
}

impl Clone for PropertyValue {
    fn clone(&self) -> (res: Self)
        ensures
            res@ == self@,
    {
        match self {
            PropertyValue::ID => PropertyValue::ID,
            PropertyValue::Verification => PropertyValue::Verification,
            PropertyValue::Title(text) => PropertyValue::Title(text.clone()),
            PropertyValue::RichText => PropertyValue::RichText,
            PropertyValue::Number => PropertyValue::Number,
            PropertyValue::Checkbox(flag) => PropertyValue::Checkbox(*flag),
            PropertyValue::Date(start, end) => PropertyValue::Date(
                start.clone(),
                clone_optional(end),
            ),
            PropertyValue::Timestamp => PropertyValue::Timestamp,
            PropertyValue::Status(name) => PropertyValue::Status(name.clone()),
            PropertyValue::Select(name) => PropertyValue::Select(name.clone()),
            PropertyValue::MultiSelect(names) => PropertyValue::MultiSelect(clone_strings(names)),
            PropertyValue::Url => PropertyValue::Url,
            PropertyValue::Place => PropertyValue::Place,
            PropertyValue::People => PropertyValue::People,
            PropertyValue::PhoneNumber => PropertyValue::PhoneNumber,
            PropertyValue::Files => PropertyValue::Files,
            PropertyValue::Formula(text) => PropertyValue::Formula(text.clone()),
            PropertyValue::Relation => PropertyValue::Relation,
            PropertyValue::Rollup => PropertyValue::Rollup,
            PropertyValue::CreatedTime => PropertyValue::CreatedTime,
            PropertyValue::LastEditedTime => PropertyValue::LastEditedTime,
        }
    }
}

impl PropertyValueView {
    /// The kind of the value: its tag without its data.
    pub open spec fn kind(self) -> PropertyInfo {
        match self {
            PropertyValueView::ID => PropertyInfo::ID,
            PropertyValueView::Verification => PropertyInfo::Verification,
            PropertyValueView::Title(_) => PropertyInfo::Title,
            PropertyValueView::RichText => PropertyInfo::RichText,
            PropertyValueView::Number => PropertyInfo::Number,
            PropertyValueView::Checkbox(_) => PropertyInfo::Checkbox,
            PropertyValueView::Date(_, _) => PropertyInfo::Date,
            PropertyValueView::Timestamp => PropertyInfo::Timestamp,
            PropertyValueView::Status(_) => PropertyInfo::Status,
            PropertyValueView::Select(_) => PropertyInfo::Select,
            PropertyValueView::MultiSelect(_) => PropertyInfo::MultiSelect,
            PropertyValueView::Url => PropertyInfo::Url,
            PropertyValueView::Place => PropertyInfo::Place,
            PropertyValueView::People => PropertyInfo::People,
            PropertyValueView::PhoneNumber => PropertyInfo::PhoneNumber,
            PropertyValueView::Files => PropertyInfo::Files,
            PropertyValueView::Formula(_) => PropertyInfo::Formula,
            PropertyValueView::Relation => PropertyInfo::Relation,
            PropertyValueView::Rollup => PropertyInfo::Rollup,
            PropertyValueView::CreatedTime => PropertyInfo::CreatedTime,
            PropertyValueView::LastEditedTime => PropertyInfo::LastEditedTime,
        }
    }

    /// The one-line text that shows the value. A string is shown as it is,
    /// the names of a multi-select with `|` between them, a checkbox as
    /// `true` or `false`, a date as its start, followed by `~` and its end
    /// where it has one. A kind without data shows the name of the kind.
    pub open spec fn display(self) -> Seq<char> {
        match self {
            PropertyValueView::Title(text) => text,
            PropertyValueView::Date(start, Some(end)) => start + "~"@ + end,
            PropertyValueView::Date(start, None) => start,
            PropertyValueView::Checkbox(flag) => if flag {
                "true"@
            } else {
                "false"@
            },
            PropertyValueView::MultiSelect(names) => join(names, "|"@),
            PropertyValueView::Select(name) => name,
            PropertyValueView::Status(name) => name,
            PropertyValueView::Formula(text) => text,
            other => kind_name(other.kind()),
        }
    }
}

/// The value of a kind that carries no data.
pub open spec fn bare_value(kind: PropertyInfo) -> PropertyValueView {
    match kind {
        PropertyInfo::ID => PropertyValueView::ID,
        PropertyInfo::Verification => PropertyValueView::Verification,
        PropertyInfo::RichText => PropertyValueView::RichText,
        PropertyInfo::Number => PropertyValueView::Number,
        PropertyInfo::Timestamp => PropertyValueView::Timestamp,
        PropertyInfo::Url => PropertyValueView::Url,
        PropertyInfo::Place => PropertyValueView::Place,
        PropertyInfo::People => PropertyValueView::People,
        PropertyInfo::PhoneNumber => PropertyValueView::PhoneNumber,
        PropertyInfo::Files => PropertyValueView::Files,
        PropertyInfo::Relation => PropertyValueView::Relation,
        PropertyInfo::Rollup => PropertyValueView::Rollup,
        PropertyInfo::CreatedTime => PropertyValueView::CreatedTime,
        PropertyInfo::LastEditedTime => PropertyValueView::LastEditedTime,
        _ => arbitrary(),
    }
}

/// The names of the options of a multi-select, in the order of the wire. The
/// first option without a name that is a string decides the error.
pub open spec fn decode_names(items: Seq<JsonView>) -> Result<Seq<Seq<char>>, DecodeErrorView> {
    decode_all(items, |item: JsonView| require_text(item, "name"@))
}

/// The text of a title: the plain text of its first span. The spans behind
/// the first are left out, by rule; a title without a span is refused.
pub open spec fn decode_title(payload: JsonView) -> Result<PropertyValueView, DecodeErrorView> {
    match payload {
        JsonView::Array(spans) => if spans.len() == 0 {
            Err(DecodeErrorView::EmptyTitle)
        } else {
            match require_text(spans[0], "plain_text"@) {
                Ok(text) => Ok(PropertyValueView::Title(text)),
                Err(error) => Err(error),
            }
        },
        _ => Err(DecodeErrorView::WrongType("title"@)),
    }
}

/// The start of a date and, where it has one, its end.
pub open spec fn decode_date(payload: JsonView) -> Result<PropertyValueView, DecodeErrorView> {
    match require_text(payload, "start"@) {
        Err(error) => Err(error),
        Ok(start) => match optional_text(payload, "end"@) {
            Err(error) => Err(error),
            Ok(end) => Ok(PropertyValueView::Date(start, end)),
        },
    }
}

/// The value that the payload of a property holds, read as the kind asks.
pub open spec fn decode_payload(kind: PropertyInfo, payload: JsonView) -> Result<
    PropertyValueView,
    DecodeErrorView,
> {
    match kind {
        PropertyInfo::Title => decode_title(payload),
        PropertyInfo::Date => decode_date(payload),
        PropertyInfo::Checkbox => match payload {
            JsonView::Bool(flag) => Ok(PropertyValueView::Checkbox(flag)),
            _ => Err(DecodeErrorView::WrongType("checkbox"@)),
        },
        PropertyInfo::MultiSelect => match payload {
            JsonView::Array(items) => match decode_names(items) {
                Ok(names) => Ok(PropertyValueView::MultiSelect(names)),
                Err(error) => Err(error),
            },
            _ => Err(DecodeErrorView::WrongType("multi_select"@)),
        },
        PropertyInfo::Select => match require_text(payload, "name"@) {
            Ok(name) => Ok(PropertyValueView::Select(name)),
            Err(error) => Err(error),
        },
        PropertyInfo::Status => match require_text(payload, "name"@) {
            Ok(name) => Ok(PropertyValueView::Status(name)),
            Err(error) => Err(error),
        },
        PropertyInfo::Formula => match payload.field("string"@) {
            Some(JsonView::Str(text)) => Ok(PropertyValueView::Formula(text)),
            _ => Err(DecodeErrorView::MissingFormulaString),
        },
        other => Ok(bare_value(other)),
    }
}

/// The value of a property: the kind that its `type` member names, and the
/// member of that same name read as the kind asks.
pub open spec fn decode_value(doc: JsonView) -> Result<PropertyValueView, DecodeErrorView> {
    match decode_kind(doc) {
        Err(error) => Err(error),
        Ok(kind) => match doc.field(kind_name(kind)) {
            None => Err(DecodeErrorView::MissingField(kind_name(kind))),
            Some(payload) => decode_payload(kind, payload),
        },
    }
}

/// The object whose one member is `name`, a string.
pub open spec fn named(name: Seq<char>) -> JsonView {
    JsonView::Object(seq![member("name"@, JsonView::Str(name))])
}

/// The payload that writes a value to a page; `None` for a value of a kind
/// that cannot be written.
pub open spec fn encode_payload(value: PropertyValueView) -> Option<JsonView> {
    match value {
        PropertyValueView::Checkbox(flag) => Some(JsonView::Bool(flag)),
        PropertyValueView::Select(name) => Some(named(name)),
        PropertyValueView::Status(name) => Some(named(name)),
        PropertyValueView::MultiSelect(names) => Some(
            JsonView::Array(Seq::new(names.len(), |i: int| named(names[i]))),
        ),
        PropertyValueView::Date(start, None) => Some(
            JsonView::Object(seq![member("start"@, JsonView::Str(start))]),
        ),
        PropertyValueView::Date(start, Some(end)) => Some(
            JsonView::Object(
                seq![member("start"@, JsonView::Str(start)), member("end"@, JsonView::Str(end))],
            ),
        ),
        _ => None,
    }
}

/// The document that writes a value to a page: one member, named as the
/// kind is and holding the payload.
pub open spec fn encode_value(value: PropertyValueView) -> Result<JsonView, ValidationError> {
    match encode_payload(value) {
        Some(payload) => Ok(JsonView::Object(seq![member(kind_name(value.kind()), payload)])),
        None => Err(ValidationError::UnsupportedWriteKind(value.kind())),
    }
}

impl PropertyValue {
    /// The object whose one member is `name`, a string.
    fn named(name: &str) -> (res: Json)
        ensures
            res@ == named(name@),
    {
        Json::object_of("name", Json::string(name))
    }

    /// The payload that writes the value to a page, where its kind can be
    /// written.
    fn encode_payload(&self) -> (res: Option<Json>)
        ensures
            option_view(res) == encode_payload(self@),
    {
        match self {
            PropertyValue::Checkbox(flag) => Some(Json::Bool(*flag)),
            PropertyValue::Select(name) => Some(PropertyValue::named(name.as_str())),
            PropertyValue::Status(name) => Some(PropertyValue::named(name.as_str())),
            PropertyValue::MultiSelect(names) => {
                let mut items: Vec<Json> = Vec::new();
                let mut i: usize = 0;
                while i < names.len()
                    invariant
                        i <= names@.len(),
                        items@.len() == i,
                        forall|j: int| 0 <= j < i ==> items@[j]@ == named(names@[j]@),
                    decreases names@.len() - i,
                {
                    items.push(PropertyValue::named(names[i].as_str()));
                    i += 1;
                }
                let ghost wanted = Seq::new(
                    views(names@).len(),
                    |i: int| named(views(names@)[i]),
                );
                assert(views(items@) =~= wanted);
                Some(Json::array(items))
            },
            PropertyValue::Date(start, end) => {
                let mut members: Vec<Member> = Vec::new();
                members.push(Member::new("start", Json::string(start.as_str())));
                match end {
                    Some(end) => {
                        members.push(Member::new("end", Json::string(end.as_str())));
                        assert(member_views(members@) =~= seq![
                            member("start"@, JsonView::Str(start@)),
                            member("end"@, JsonView::Str(end@)),
                        ]);
                    },
                    None => {
                        assert(member_views(members@) =~= seq![
                            member("start"@, JsonView::Str(start@)),
                        ]);
                    },
                }
                Some(Json::object(members))
            },
            _ => None,
        }
    }

    /// The document that writes the value to a page: one member, named as
    /// the kind is and holding the payload. A checkbox, a date, a select, a
    /// multi-select and a status can be written; any other kind is refused.
    pub fn encode_for_write(&self) -> (res: Result<Json, ValidationError>)
        ensures
            match res {
                Ok(doc) => encode_value(self@) == Ok::<JsonView, ValidationError>(doc@),
                Err(error) => encode_value(self@) == Err::<JsonView, ValidationError>(error),
            },
    {
        match self.encode_payload() {
            Some(payload) => {
                let name = self.to_string();
                Ok(Json::object_of(name.as_str(), payload))
            },
            None => Err(ValidationError::UnsupportedWriteKind(self.kind())),
        }
    }

    /// The kind of the value: its tag without its data.
    pub fn kind(&self) -> (res: PropertyInfo)
        ensures
            res == self@.kind(),
    {
        match self {
            PropertyValue::ID => PropertyInfo::ID,
            PropertyValue::Verification => PropertyInfo::Verification,
            PropertyValue::Title(_) => PropertyInfo::Title,
            PropertyValue::RichText => PropertyInfo::RichText,
            PropertyValue::Number => PropertyInfo::Number,
            PropertyValue::Checkbox(_) => PropertyInfo::Checkbox,
            PropertyValue::Date(_, _) => PropertyInfo::Date,
            PropertyValue::Timestamp => PropertyInfo::Timestamp,
            PropertyValue::Status(_) => PropertyInfo::Status,
            PropertyValue::Select(_) => PropertyInfo::Select,
            PropertyValue::MultiSelect(_) => PropertyInfo::MultiSelect,
            PropertyValue::Url => PropertyInfo::Url,
            PropertyValue::Place => PropertyInfo::Place,
            PropertyValue::People => PropertyInfo::People,
            PropertyValue::PhoneNumber => PropertyInfo::PhoneNumber,
            PropertyValue::Files => PropertyInfo::Files,
            PropertyValue::Formula(_) => PropertyInfo::Formula,
            PropertyValue::Relation => PropertyInfo::Relation,
            PropertyValue::Rollup => PropertyInfo::Rollup,
            PropertyValue::CreatedTime => PropertyInfo::CreatedTime,
            PropertyValue::LastEditedTime => PropertyInfo::LastEditedTime,
        }
    }

    /// Whether two values are of one kind, whatever data they carry.
    pub fn variant_eq(&self, other: &Self) -> (res: bool)
        ensures
            res == (self@.kind() == other@.kind()),
    {
        self.kind() == other.kind()
    }

    /// The name by which the wire format calls the kind of the value.
    pub fn to_string(&self) -> (res: String)
        ensures
            res@ == kind_name(self@.kind()),
    {
        self.kind().to_string()
    }

    /// The one-line text that shows the value.
    pub fn get_value(&self) -> (res: String)
        ensures
            res@ == self@.display(),
    {
        match self {
            PropertyValue::Title(text) => text.clone(),
            PropertyValue::Date(start, end) => {
                let mut shown = start.clone();
                match end {
                    Some(end) => {
                        shown.append("~");
                        shown.append(end.as_str());
                    },
                    None => {},
                }
                shown
            },
            PropertyValue::Checkbox(flag) => {
                if *flag {
                    String::from_str("true")
                } else {
                    String::from_str("false")
                }
            },
            PropertyValue::MultiSelect(names) => join_strings(names, "|"),
            PropertyValue::Select(name) => name.clone(),
            PropertyValue::Status(name) => name.clone(),
            PropertyValue::Formula(text) => text.clone(),
            _ => self.to_string(),
        }
    }

    /// The value of a kind that carries no data.
    fn bare(kind: PropertyInfo) -> (res: PropertyValue)
        requires
            kind != PropertyInfo::Title,
            kind != PropertyInfo::Date,
            kind != PropertyInfo::Checkbox,
            kind != PropertyInfo::MultiSelect,
            kind != PropertyInfo::Select,
            kind != PropertyInfo::Status,
            kind != PropertyInfo::Formula,
        ensures
            res@ == bare_value(kind),
    {
        match kind {
            PropertyInfo::ID => PropertyValue::ID,
            PropertyInfo::Verification => PropertyValue::Verification,
            PropertyInfo::RichText => PropertyValue::RichText,
            PropertyInfo::Number => PropertyValue::Number,
            PropertyInfo::Timestamp => PropertyValue::Timestamp,
            PropertyInfo::Url => PropertyValue::Url,
            PropertyInfo::Place => PropertyValue::Place,
            PropertyInfo::People => PropertyValue::People,
            PropertyInfo::PhoneNumber => PropertyValue::PhoneNumber,
            PropertyInfo::Files => PropertyValue::Files,
            PropertyInfo::Relation => PropertyValue::Relation,
            PropertyInfo::Rollup => PropertyValue::Rollup,
            PropertyInfo::CreatedTime => PropertyValue::CreatedTime,
            _ => PropertyValue::LastEditedTime,
        }
    }

    /// Reads the names of the options of a multi-select.
    fn decode_names(items: &Vec<Json>) -> (res: Result<Vec<String>, DecodeError>)
        ensures
            match res {
                Ok(names) => decode_names(views(items@)) == Ok::<Seq<Seq<char>>, DecodeErrorView>(
                    views(names@),
                ),
                Err(error) => decode_names(views(items@)) == Err::<
                    Seq<Seq<char>>,
                    DecodeErrorView,
                >(error@),
            },
    {
        let mut names: Vec<String> = Vec::new();
        let mut i: usize = 0;
        let ghost one = |item: JsonView| require_text(item, "name"@);
        assert(views(items@).subrange(0, 0) =~= Seq::<JsonView>::empty());
        assert(views(names@) =~= Seq::<Seq<char>>::empty());
        while i < items.len()
            invariant
                i <= items@.len(),
                one == |item: JsonView| require_text(item, "name"@),
                decode_all(views(items@).subrange(0, i as int), one) == Ok::<
                    Seq<Seq<char>>,
                    DecodeErrorView,
                >(views(names@)),
            decreases items@.len() - i,
        {
            proof {
                lemma_decode_all_step(views(items@), one, i as int);
            }
            let ghost old_names = views(names@);
            match text_field(&items[i], "name") {
                Ok(name) => {
                    names.push(String::from_str(name));
                    assert(views(names@) =~= old_names.push(name@));
                },
                Err(error) => {
                    proof {
                        lemma_decode_all_fails_on(views(items@), one, i as int + 1);
                    }
                    return Err(error);
                },
            }
            i += 1;
        }
        assert(views(items@).subrange(0, items@.len() as int) =~= views(items@));
        Ok(names)
    }

    /// Reads the value that the payload of a property holds, as the kind
    /// asks.
    pub fn decode_payload(kind: PropertyInfo, payload: &Json) -> (res: Result<
        PropertyValue,
        DecodeError,
    >)
        ensures
            result_view(res) == decode_payload(kind, payload@),
    {
        match kind {
            PropertyInfo::Title => match payload.as_array() {
                None => Err(DecodeError::WrongType(String::from_str("title"))),
                Some(spans) => {
                    if spans.len() == 0 {
                        Err(DecodeError::EmptyTitle)
                    } else {
                        match text_field(&spans[0], "plain_text") {
                            Ok(text) => Ok(PropertyValue::Title(String::from_str(text))),
                            Err(error) => Err(error),
                        }
                    }
                },
            },
            PropertyInfo::Date => match text_field(payload, "start") {
                Err(error) => Err(error),
                Ok(start) => match optional_text_field(payload, "end") {
                    Err(error) => Err(error),
                    Ok(None) => Ok(PropertyValue::Date(String::from_str(start), None)),
                    Ok(Some(end)) => Ok(
                        PropertyValue::Date(String::from_str(start), Some(String::from_str(end))),
                    ),
                },
            },
            PropertyInfo::Checkbox => match payload.as_bool() {
                Some(flag) => Ok(PropertyValue::Checkbox(flag)),
                None => Err(DecodeError::WrongType(String::from_str("checkbox"))),
            },
            PropertyInfo::MultiSelect => match payload.as_array() {
                None => Err(DecodeError::WrongType(String::from_str("multi_select"))),
                Some(items) => match PropertyValue::decode_names(items) {
                    Ok(names) => Ok(PropertyValue::MultiSelect(names)),
                    Err(error) => Err(error),
                },
            },
            PropertyInfo::Select => match text_field(payload, "name") {
                Ok(name) => Ok(PropertyValue::Select(String::from_str(name))),
                Err(error) => Err(error),
            },
            PropertyInfo::Status => match text_field(payload, "name") {
                Ok(name) => Ok(PropertyValue::Status(String::from_str(name))),
                Err(error) => Err(error),
            },
            PropertyInfo::Formula => match payload.get("string") {
                None => Err(DecodeError::MissingFormulaString),
                Some(rendered) => match rendered.as_str() {
                    Some(text) => Ok(PropertyValue::Formula(String::from_str(text))),
                    None => Err(DecodeError::MissingFormulaString),
                },
            },
            other => Ok(PropertyValue::bare(other)),
        }
    }

    /// Reads the value of a property from its document: the kind that the
    /// `type` member names, and the member of that same name read as the
    /// kind asks. A `type` that names no known kind is an error.
    pub fn decode(doc: &Json) -> (res: Result<PropertyValue, DecodeError>)
        ensures
            result_view(res) == decode_value(doc@),
    {
        let tag = match doc.get("type") {
            Some(tag) => tag,
            None => {
                return Err(DecodeError::MissingField(String::from_str("type")));
            },
        };
        let raw = match tag.as_str() {
            Some(raw) => raw,
            None => {
                return Err(DecodeError::WrongType(String::from_str("type")));
            },
        };
        let kind = match PropertyInfo::from_name(raw) {
            Some(kind) => kind,
            None => {
                return Err(DecodeError::UnknownPropertyKind(String::from_str(raw)));
            },
        };
        proof {
            lemma_kind_named_is_exact(raw@);
        }
        match doc.get(raw) {
            None => Err(DecodeError::MissingField(String::from_str(raw))),
            Some(payload) => PropertyValue::decode_payload(kind, payload),
        }
    }
}

/// A property of a page: its id, the name under which the page holds it,
/// and its value.
#[derive(Debug, PartialEq, Eq)]
pub struct Property {
    id: String,
    name: String,
    property_value: PropertyValue,
}

/// The mathematical value of a [`Property`].
pub struct PropertyView {
    pub id: Seq<char>,
    pub name: Seq<char>,
    pub value: PropertyValueView,
}

impl View for Property {
    type V = PropertyView;

    closed spec fn view(&self) -> PropertyView {
        PropertyView { id: self.id@, name: self.name@, value: self.property_value@ }
    }
}

/// The property that a page holds under `name` as the document `doc`: the
/// value that the document gives, and the text of its `id` member.
pub open spec fn decode_property(name: Seq<char>, doc: JsonView) -> Result<
    PropertyView,
    DecodeErrorView,
> {
    match decode_value(doc) {
        Err(error) => Err(error),
        Ok(value) => match require_text(doc, "id"@) {
            Err(error) => Err(error),
            Ok(id) => Ok(PropertyView { id, name, value }),
        },
    }
}

/// The properties that the members of an object describe, each under the
/// name of its member, in the order of the members.
pub open spec fn decode_properties(members: Seq<MemberView>) -> Result<
    Seq<PropertyView>,
    DecodeErrorView,
> {
    decode_all(members, |entry: MemberView| decode_property(entry.key, entry.value))
}

impl Clone for Property {
    fn clone(&self) -> (res: Self)
        ensures
            res@ == self@,
    {
        Property {
            id: self.id.clone(),
            name: self.name.clone(),
            property_value: self.property_value.clone(),
        }
    }
}

impl Property {
    /// Reads the property that a page holds under `name` as the document
    /// `value`.
    pub fn new(name: &str, value: &Json) -> (res: Result<Property, DecodeError>)
        ensures
            result_view(res) == decode_property(name@, value@),
    {
        let property_value = match PropertyValue::decode(value) {
            Ok(property_value) => property_value,
            Err(error) => {
                return Err(error);
            },
        };
        match text_field(value, "id") {
            Err(error) => Err(error),
            Ok(id) => Ok(
                Property {
                    id: String::from_str(id),
                    name: String::from_str(name),
                    property_value,
                },
            ),
        }
    }

    /// Reads the properties that the members of an object describe.
    pub fn decode_all(members: &Vec<Member>) -> (res: Result<Vec<Property>, DecodeError>)
        ensures
            match res {
                Ok(properties) => decode_properties(member_views(members@)) == Ok::<
                    Seq<PropertyView>,
                    DecodeErrorView,
                >(views(properties@)),
                Err(error) => decode_properties(member_views(members@)) == Err::<
                    Seq<PropertyView>,
                    DecodeErrorView,
                >(error@),
            },
    {
        let mut properties: Vec<Property> = Vec::new();
        let mut i: usize = 0;
        let ghost one = |entry: MemberView| decode_property(entry.key, entry.value);
        assert(member_views(members@).subrange(0, 0) =~= Seq::<MemberView>::empty());
        assert(views(properties@) =~= Seq::<PropertyView>::empty());
        while i < members.len()
            invariant
                i <= members@.len(),
                one == |entry: MemberView| decode_property(entry.key, entry.value),
                decode_all(member_views(members@).subrange(0, i as int), one) == Ok::<
                    Seq<PropertyView>,
                    DecodeErrorView,
                >(views(properties@)),
            decreases members@.len() - i,
        {
            proof {
                lemma_decode_all_step(member_views(members@), one, i as int);
            }
            let ghost before = views(properties@);
            match Property::new(members[i].key.as_str(), &members[i].value) {
                Ok(property) => {
                    properties.push(property);
                    assert(views(properties@) =~= before.push(property@));
                },
                Err(error) => {
                    proof {
                        lemma_decode_all_fails_on(member_views(members@), one, i as int + 1);
                    }
                    return Err(error);
                },
            }
            i += 1;
        }
        assert(member_views(members@).subrange(0, members@.len() as int) =~= member_views(
            members@,
        ));
        Ok(properties)
    }

    /// A copy of each property of a list, in the same order.
    pub fn clone_all(properties: &Vec<Property>) -> (res: Vec<Property>)
        ensures
            views(res@) == views(properties@),
    {
        let mut copy: Vec<Property> = Vec::new();
        let mut i: usize = 0;
        while i < properties.len()
            invariant
                i <= properties@.len(),
                copy@.len() == i,
                forall|j: int| 0 <= j < i ==> copy@[j]@ == properties@[j]@,
            decreases properties@.len() - i,
        {
            copy.push(properties[i].clone());
            i += 1;
        }
        assert(views(copy@) =~= views(properties@));
        copy
    }

    /// The id of the property.
    pub fn get_id(&self) -> (res: &str)
        ensures
            res@ == self@.id,
    {
        self.id.as_str()
    }

    /// The name under which the page holds the property.
    pub fn get_name(&self) -> (res: &str)
        ensures
            res@ == self@.name,
    {
        self.name.as_str()
    }

    /// The value of the property.
    pub fn get_property_value(&self) -> (res: &PropertyValue)
        ensures
            res@ == self@.value,
    {
        &self.property_value
    }
}

/// What the remote service answers in place of a result: the status, a
/// code that names the failure, and a message for a reader.
#[derive(Debug, PartialEq, Eq)]
pub struct ErrorResponse {
    status: u16,
    code: String,
    object: String,
    message: String,
}

/// The mathematical value of an [`ErrorResponse`].
pub struct ErrorResponseView {
    pub status: u16,
    pub code: Seq<char>,
    pub object: Seq<char>,
    pub message: Seq<char>,
}

impl View for ErrorResponse {
    type V = ErrorResponseView;

    closed spec fn view(&self) -> ErrorResponseView {
        ErrorResponseView {
            status: self.status,
            code: self.code@,
            object: self.object@,
            message: self.message@,
        }
    }
}

/// The status that a document gives: its `status`, a number written in
/// digits alone that fits sixteen bits.
pub open spec fn require_status(doc: JsonView) -> Result<u16, DecodeErrorView> {
    match doc.field("status"@) {
        None => Err(DecodeErrorView::MissingField("status"@)),
        Some(JsonView::Number(digits)) => match read_u16(digits) {
            Some(status) => Ok(status),
            None => Err(DecodeErrorView::WrongType("status"@)),
        },
        Some(_) => Err(DecodeErrorView::WrongType("status"@)),
    }
}

/// The answer that a document describes: `status`, `code`, `object` and
/// `message`, read in this order.
pub open spec fn decode_error_response(doc: JsonView) -> Result<
    ErrorResponseView,
    DecodeErrorView,
> {
    let status = require_status(doc);
    let code = require_text(doc, "code"@);
    let object = require_text(doc, "object"@);
    let message = require_text(doc, "message"@);
    if status is Err {
        Err(status->Err_0)
    } else if code is Err {
        Err(code->Err_0)
    } else if object is Err {
        Err(object->Err_0)
    } else if message is Err {
        Err(message->Err_0)
    } else {
        Ok(
            ErrorResponseView {
                status: status->Ok_0,
                code: code->Ok_0,
                object: object->Ok_0,
                message: message->Ok_0,
            },
        )
    }
}

impl ErrorResponse {
    /// An answer with the given status, code and message.
    pub fn new(status: u16, code: &str, message: &str) -> (res: ErrorResponse)
        ensures
            res@ == (ErrorResponseView {
                status,
                code: code@,
                object: "error"@,
                message: message@,
            }),
    {
        ErrorResponse {
            status,
            code: String::from_str(code),
            object: String::from_str("error"),
            message: String::from_str(message),
        }
    }

    /// Reads the status of an answer from its document.
    fn status_field(doc: &Json) -> (res: Result<u16, DecodeError>)
        ensures
            match res {
                Ok(status) => require_status(doc@) == Ok::<u16, DecodeErrorView>(status),
                Err(error) => require_status(doc@) == Err::<u16, DecodeErrorView>(error@),
            },
    {
        match doc.get("status") {
            None => Err(DecodeError::MissingField(String::from_str("status"))),
            Some(value) => match value.as_number() {
                None => Err(DecodeError::WrongType(String::from_str("status"))),
                Some(digits) => match parse_u16(digits) {
                    Some(status) => Ok(status),
                    None => Err(DecodeError::WrongType(String::from_str("status"))),
                },
            },
        }
    }

    /// Reads an answer that reports a failure from its document.
    pub fn decode(doc: &Json) -> (res: Result<ErrorResponse, DecodeError>)
        ensures
            result_view(res) == decode_error_response(doc@),
    {
        let status = match ErrorResponse::status_field(doc) {
            Ok(status) => status,
            Err(error) => {
                return Err(error);
            },
        };
        let code = match text_field(doc, "code") {
            Ok(code) => code,
            Err(error) => {
                return Err(error);
            },
        };
        let object = match text_field(doc, "object") {
            Ok(object) => object,
            Err(error) => {
                return Err(error);
            },
        };
        match text_field(doc, "message") {
            Err(error) => Err(error),
            Ok(message) => Ok(
                ErrorResponse {
                    status,
                    code: String::from_str(code),
                    object: String::from_str(object),
                    message: String::from_str(message),
                },
            ),
        }
    }

    /// The status that the answer reports.
    pub fn get_status(&self) -> (res: u16)
        ensures
            res == self@.status,
    {
        self.status
    }

    /// The code that names the failure.
    pub fn get_code(&self) -> (res: &str)
        ensures
            res@ == self@.code,
    {
        self.code.as_str()
    }

    /// The message for a reader.
    pub fn get_message(&self) -> (res: &str)
        ensures
            res@ == self@.message,
    {
        self.message.as_str()
    }
}

/// What the remote service answers where it succeeds: the kind of object,
/// the id of the request, and the payload.
#[derive(Debug, PartialEq, Eq)]
pub struct NotionResponse<T> {
    object: String,
    request_id: String,
    data: T,
}

impl<T> NotionResponse<T> {
    /// The kind of object that the answer holds, as the wire names it.
    pub closed spec fn object(&self) -> Seq<char> {
        self.object@
    }

    /// The id that the remote service gave the request.
    pub closed spec fn request_id(&self) -> Seq<char> {
        self.request_id@
    }

    /// The payload of the answer.
    pub closed spec fn data(&self) -> T {
        self.data
    }

    /// An answer with the given kind of object, id of the request and
    /// payload.
    pub fn new(object: &str, request_id: &str, data: T) -> (res: NotionResponse<T>)
        ensures
            res.object() == object@,
            res.request_id() == request_id@,
            res.data() == data,
    {
        NotionResponse {
            object: String::from_str(object),
            request_id: String::from_str(request_id),
            data,
        }
    }

    /// The kind of object that the answer holds.
    pub fn get_object(&self) -> (res: &str)
        ensures
            res@ == self.object(),
    {
        self.object.as_str()
    }

    /// The id that the remote service gave the request.
    pub fn get_request_id(&self) -> (res: &str)
        ensures
            res@ == self.request_id(),
    {
        self.request_id.as_str()
    }

    /// The payload of the answer.
    pub fn get_data(&self) -> (res: &T)
        ensures
            *res == self.data(),
    {
        &self.data
    }

    /// The payload of the answer, taken out of it.
    pub fn into_data(self) -> (res: T)
        ensures
            res == self.data(),
    {
        self.data
    }
}

/// The method of a request.
#[derive(Debug, Clone, Copy, PartialEq, Eq, Structural)]
pub enum Method {
    Get,
    Post,
    Patch,
    Delete,
}

/// The word by which HTTP calls a method.
pub open spec fn method_name(method: Method) -> Seq<char> {
    match method {
        Method::Get => "GET"@,
        Method::Post => "POST"@,
        Method::Patch => "PATCH"@,
        Method::Delete => "DELETE"@,
    }
}

impl Method {
    /// The word by which HTTP calls the method.
    pub fn as_str(&self) -> (res: &'static str)
        ensures
            res@ == method_name(*self),
    {
        match self {
            Method::Get => "GET",
            Method::Post => "POST",
            Method::Patch => "PATCH",
            Method::Delete => "DELETE",
        }
    }
}

/// The cover of a page or of a database: the kind of picture it is.
#[derive(Debug, PartialEq, Eq)]
pub struct Cover {
    cover_type: String,
}

/// The mathematical value of a [`Cover`].
pub struct CoverView {
    pub cover_type: Seq<char>,
}

impl View for Cover {
    type V = CoverView;

    closed spec fn view(&self) -> CoverView {
        CoverView { cover_type: self.cover_type@ }
    }
}

/// The cover that a document describes: its `type`, a string.
pub open spec fn decode_cover(doc: JsonView) -> Result<CoverView, DecodeErrorView> {
    match require_text(doc, "type"@) {
        Err(error) => Err(error),
        Ok(cover_type) => Ok(CoverView { cover_type }),
    }
}

impl Cover {
    /// Reads a cover from its document.
    pub fn decode(doc: &Json) -> (res: Result<Cover, DecodeError>)
        ensures
            result_view(res) == decode_cover(doc@),
    {
        match text_field(doc, "type") {
            Err(error) => Err(error),
            Ok(cover_type) => Ok(Cover { cover_type: String::from_str(cover_type) }),
        }
    }

    /// The kind of picture that the cover is.
    pub fn get_type(&self) -> (res: &str)
        ensures
            res@ == self@.cover_type,
    {
        self.cover_type.as_str()
    }

    /// The document that describes the cover.
    pub fn to_json(&self) -> (res: Json)
        ensures
            res@ == JsonView::Object(seq![member("type"@, JsonView::Str(self@.cover_type))]),
    {
        Json::object_of("type", Json::string(self.cover_type.as_str()))
    }
}

/// The icon of a page or of a database: the kind of icon it is and, for an
/// emoji, the emoji.
#[derive(Debug, PartialEq, Eq)]
pub struct Icon {
    icon_type: String,
    emoji: Option<String>,
}

/// The mathematical value of an [`Icon`].
pub struct IconView {
    pub icon_type: Seq<char>,
    pub emoji: Option<Seq<char>>,
}

impl View for Icon {
    type V = IconView;

    closed spec fn view(&self) -> IconView {
        IconView { icon_type: self.icon_type@, emoji: option_view(self.emoji) }
    }
}

/// The icon that a document describes: its `type`, a string, and its
/// `emoji`, a string where there is one.
pub open spec fn decode_icon(doc: JsonView) -> Result<IconView, DecodeErrorView> {
    match require_text(doc, "type"@) {
        Err(error) => Err(error),
        Ok(icon_type) => match optional_text(doc, "emoji"@) {
            Err(error) => Err(error),
            Ok(emoji) => Ok(IconView { icon_type, emoji }),
        },
    }
}

/// The document that describes an icon: its `type`, and its `emoji` or
/// `null`.
pub open spec fn icon_document(icon: IconView) -> JsonView {
    JsonView::Object(
        seq![
            member("type"@, JsonView::Str(icon.icon_type)),
            member(
                "emoji"@,
                match icon.emoji {
                    Some(emoji) => JsonView::Str(emoji),
                    None => JsonView::Null,
                },
            ),
        ],
    )
}

impl Icon {
    /// Reads an icon from its document.
    pub fn decode(doc: &Json) -> (res: Result<Icon, DecodeError>)
        ensures
            result_view(res) == decode_icon(doc@),
    {
        let icon_type = match text_field(doc, "type") {
            Ok(icon_type) => icon_type,
            Err(error) => {
                return Err(error);
            },
        };
        match optional_text_field(doc, "emoji") {
            Err(error) => Err(error),
            Ok(None) => Ok(Icon { icon_type: String::from_str(icon_type), emoji: None }),
            Ok(Some(emoji)) => Ok(
                Icon { icon_type: String::from_str(icon_type), emoji: Some(String::from_str(emoji)) },
            ),
        }
    }

    /// The kind of icon.
    pub fn get_type(&self) -> (res: &str)
        ensures
            res@ == self@.icon_type,
    {
        self.icon_type.as_str()
    }

    /// The emoji, for an icon that is one.
    pub fn get_emoji(&self) -> (res: Option<&str>)
        ensures
            option_view(res) == self@.emoji,
    {
        match &self.emoji {
            Some(emoji) => Some(emoji.as_str()),
            None => None,
        }
    }

    /// The document that describes the icon.
    pub fn to_json(&self) -> (res: Json)
        ensures
            res@ == icon_document(self@),
    {
        let emoji = match &self.emoji {
            Some(emoji) => Json::string(emoji.as_str()),
            None => Json::Null,
        };
        let mut members: Vec<Member> = Vec::new();
        members.push(Member::new("type", Json::string(self.icon_type.as_str())));
        members.push(Member::new("emoji", emoji));
        assert(member_views(members@) =~= icon_document(self@)->Object_0);
        Json::object(members)
    }
}

/// The cover under the member `key`, where there is one.
pub open spec fn optional_cover(doc: JsonView, key: Seq<char>) -> Result<
    Option<CoverView>,
    DecodeErrorView,
> {
    match optional_field(doc, key) {
        None => Ok(None),
        Some(inner) => match decode_cover(inner) {
            Ok(cover) => Ok(Some(cover)),
            Err(error) => Err(error),
        },
    }
}

/// The icon under the member `key`, where there is one.
pub open spec fn optional_icon(doc: JsonView, key: Seq<char>) -> Result<
    Option<IconView>,
    DecodeErrorView,
> {
    match optional_field(doc, key) {
        None => Ok(None),
        Some(inner) => match decode_icon(inner) {
            Ok(icon) => Ok(Some(icon)),
            Err(error) => Err(error),
        },
    }
}

/// Reads the cover under the member `key`, where there is one.
pub fn cover_field(doc: &Json, key: &str) -> (res: Result<Option<Cover>, DecodeError>)
    ensures
        match res {
            Ok(cover) => optional_cover(doc@, key@) == Ok::<Option<CoverView>, DecodeErrorView>(
                option_view(cover),
            ),
            Err(error) => optional_cover(doc@, key@) == Err::<Option<CoverView>, DecodeErrorView>(
                error@,
            ),
        },
{
    match optional_member(doc, key) {
        None => Ok(None),
        Some(inner) => match Cover::decode(inner) {
            Ok(cover) => Ok(Some(cover)),
            Err(error) => Err(error),
        },
    }
}

/// Reads the icon under the member `key`, where there is one.
pub fn icon_field(doc: &Json, key: &str) -> (res: Result<Option<Icon>, DecodeError>)
    ensures
        match res {
            Ok(icon) => optional_icon(doc@, key@) == Ok::<Option<IconView>, DecodeErrorView>(
                option_view(icon),
            ),
            Err(error) => optional_icon(doc@, key@) == Err::<Option<IconView>, DecodeErrorView>(
                error@,
            ),
        },
{
    match optional_member(doc, key) {
        None => Ok(None),
        Some(inner) => match Icon::decode(inner) {
            Ok(icon) => Ok(Some(icon)),
            Err(error) => Err(error),
        },
    }
}

/// Who made or last edited a page.
#[derive(Debug, PartialEq, Eq)]
pub struct EditorInfo {
    id: String,
    object: String,
}

/// The mathematical value of an [`EditorInfo`].
pub struct EditorInfoView {
    pub id: Seq<char>,
    pub object: Seq<char>,
}

impl View for EditorInfo {
    type V = EditorInfoView;

    closed spec fn view(&self) -> EditorInfoView {
        EditorInfoView { id: self.id@, object: self.object@ }
    }
}

/// The editor that a document describes: its `id` and its `object`, both
/// strings.
pub open spec fn decode_editor(doc: JsonView) -> Result<EditorInfoView, DecodeErrorView> {
    match require_text(doc, "id"@) {
        Err(error) => Err(error),
        Ok(id) => match require_text(doc, "object"@) {
            Err(error) => Err(error),
            Ok(object) => Ok(EditorInfoView { id, object }),
        },
    }
}

impl EditorInfo {
    /// Reads an editor from its document.
    pub fn decode(doc: &Json) -> (res: Result<EditorInfo, DecodeError>)
        ensures
            result_view(res) == decode_editor(doc@),
    {
        let id = match text_field(doc, "id") {
            Ok(id) => id,
            Err(error) => {
                return Err(error);
            },
        };
        match text_field(doc, "object") {
            Err(error) => Err(error),
            Ok(object) => Ok(
                EditorInfo { id: String::from_str(id), object: String::from_str(object) },
            ),
        }
    }

    /// The id of the editor.
    pub fn get_id(&self) -> (res: &str)
        ensures
            res@ == self@.id,
    {
        self.id.as_str()
    }
}

/// The text of a span of rich text, and the link behind it.
#[derive(Debug, PartialEq, Eq)]
pub struct TitleText {
    content: String,
    link: Option<String>,
}

/// The mathematical value of a [`TitleText`].
pub struct TitleTextView {
    pub content: Seq<char>,
    pub link: Option<Seq<char>>,
}

impl View for TitleText {
    type V = TitleTextView;

    closed spec fn view(&self) -> TitleTextView {
        TitleTextView { content: self.content@, link: option_view(self.link) }
    }
}

/// The text that a document describes: its `content`, a string, and its
/// `link`, a string where there is one.
pub open spec fn decode_title_text(doc: JsonView) -> Result<TitleTextView, DecodeErrorView> {
    match require_text(doc, "content"@) {
        Err(error) => Err(error),
        Ok(content) => match optional_text(doc, "link"@) {
            Err(error) => Err(error),
            Ok(link) => Ok(TitleTextView { content, link }),
        },
    }
}

impl TitleText {
    /// Reads the text of a span from its document.
    pub fn decode(doc: &Json) -> (res: Result<TitleText, DecodeError>)
        ensures
            result_view(res) == decode_title_text(doc@),
    {
        let content = match text_field(doc, "content") {
            Ok(content) => content,
            Err(error) => {
                return Err(error);
            },
        };
        match optional_text_field(doc, "link") {
            Err(error) => Err(error),
            Ok(None) => Ok(TitleText { content: String::from_str(content), link: None }),
            Ok(Some(link)) => Ok(
                TitleText { content: String::from_str(content), link: Some(String::from_str(link)) },
            ),
        }
    }

    /// The text itself.
    pub fn get_content(&self) -> (res: &str)
        ensures
            res@ == self@.content,
    {
        self.content.as_str()
    }
}

/// How a span of rich text is set.
#[derive(Debug, PartialEq, Eq)]
pub struct Annotations {
    bold: bool,
    italic: bool,
    strikethrough: bool,
    underline: bool,
    code: bool,
    color: String,
}

/// The mathematical value of an [`Annotations`].
pub struct AnnotationsView {
    pub bold: bool,
    pub italic: bool,
    pub strikethrough: bool,
    pub underline: bool,
    pub code: bool,
    pub color: Seq<char>,
}

impl View for Annotations {
    type V = AnnotationsView;

    closed spec fn view(&self) -> AnnotationsView {
        AnnotationsView {
            bold: self.bold,
            italic: self.italic,
            strikethrough: self.strikethrough,
            underline: self.underline,
            code: self.code,
            color: self.color@,
        }
    }
}

/// The annotations that a document describes: five flags and a colour.
pub open spec fn decode_annotations(doc: JsonView) -> Result<AnnotationsView, DecodeErrorView> {
    let bold = require_flag(doc, "bold"@);
    let italic = require_flag(doc, "italic"@);
    let strikethrough = require_flag(doc, "strikethrough"@);
    let underline = require_flag(doc, "underline"@);
    let code = require_flag(doc, "code"@);
    let color = require_text(doc, "color"@);
    if bold is Err {
        Err(bold->Err_0)
    } else if italic is Err {
        Err(italic->Err_0)
    } else if strikethrough is Err {
        Err(strikethrough->Err_0)
    } else if underline is Err {
        Err(underline->Err_0)
    } else if code is Err {
        Err(code->Err_0)
    } else if color is Err {
        Err(color->Err_0)
    } else {
        Ok(
            AnnotationsView {
                bold: bold->Ok_0,
                italic: italic->Ok_0,
                strikethrough: strikethrough->Ok_0,
                underline: underline->Ok_0,
                code: code->Ok_0,
                color: color->Ok_0,
            },
        )
    }
}

impl Annotations {
    /// Reads the annotations of a span from their document.
    pub fn decode(doc: &Json) -> (res: Result<Annotations, DecodeError>)
        ensures
            result_view(res) == decode_annotations(doc@),
    {
        let bold = match flag_field(doc, "bold") {
            Ok(flag) => flag,
            Err(error) => {
                return Err(error);
            },
        };
        let italic = match flag_field(doc, "italic") {
            Ok(flag) => flag,
            Err(error) => {
                return Err(error);
            },
        };
        let strikethrough = match flag_field(doc, "strikethrough") {
            Ok(flag) => flag,
            Err(error) => {
                return Err(error);
            },
        };
        let underline = match flag_field(doc, "underline") {
            Ok(flag) => flag,
            Err(error) => {
                return Err(error);
            },
        };
        let code = match flag_field(doc, "code") {
            Ok(flag) => flag,
            Err(error) => {
                return Err(error);
            },
        };
        match text_field(doc, "color") {
            Err(error) => Err(error),
            Ok(color) => Ok(
                Annotations {
                    bold,
                    italic,
                    strikethrough,
                    underline,
                    code,
                    color: String::from_str(color),
                },
            ),
        }
    }
}

/// One span of the rich text that makes up a title.
#[derive(Debug, PartialEq, Eq)]
pub struct Title {
    title_type: String,
    text: TitleText,
    annotations: Annotations,
    plain_text: String,
    href: Option<String>,
}

/// The mathematical value of a [`Title`].
pub struct TitleView {
    pub title_type: Seq<char>,
    pub text: TitleTextView,
    pub annotations: AnnotationsView,
    pub plain_text: Seq<char>,
    pub href: Option<Seq<char>>,
}

impl View for Title {
    type V = TitleView;

    closed spec fn view(&self) -> TitleView {
        TitleView {
            title_type: self.title_type@,
            text: self.text@,
            annotations: self.annotations@,
            plain_text: self.plain_text@,
            href: option_view(self.href),
        }
    }
}

/// The span that a document describes.
pub open spec fn decode_span(doc: JsonView) -> Result<TitleView, DecodeErrorView> {
    let title_type = require_text(doc, "type"@);
    let text_doc = require_field(doc, "text"@);
    let annotations_doc = require_field(doc, "annotations"@);
    let plain_text = require_text(doc, "plain_text"@);
    let href = optional_text(doc, "href"@);
    if title_type is Err {
        Err(title_type->Err_0)
    } else if text_doc is Err {
        Err(text_doc->Err_0)
    } else if decode_title_text(text_doc->Ok_0) is Err {
        Err(decode_title_text(text_doc->Ok_0)->Err_0)
    } else if annotations_doc is Err {
        Err(annotations_doc->Err_0)
    } else if decode_annotations(annotations_doc->Ok_0) is Err {
        Err(decode_annotations(annotations_doc->Ok_0)->Err_0)
    } else if plain_text is Err {
        Err(plain_text->Err_0)
    } else if href is Err {
        Err(href->Err_0)
    } else {
        Ok(
            TitleView {
                title_type: title_type->Ok_0,
                text: decode_title_text(text_doc->Ok_0)->Ok_0,
                annotations: decode_annotations(annotations_doc->Ok_0)->Ok_0,
                plain_text: plain_text->Ok_0,
                href: href->Ok_0,
            },
        )
    }
}

impl FromJson for Title {
    open spec fn read(doc: JsonView) -> Result<TitleView, DecodeErrorView> {
        decode_span(doc)
    }

    fn from_json(doc: &Json) -> (res: Result<Title, DecodeError>) {
        Title::decode(doc)
    }
}

impl Title {
    /// Reads a span from its document.
    pub fn decode(doc: &Json) -> (res: Result<Title, DecodeError>)
        ensures
            result_view(res) == decode_span(doc@),
    {
        let title_type = match text_field(doc, "type") {
            Ok(title_type) => title_type,
            Err(error) => {
                return Err(error);
            },
        };
        let text_doc = match field(doc, "text") {
            Ok(text_doc) => text_doc,
            Err(error) => {
                return Err(error);
            },
        };
        let text = match TitleText::decode(text_doc) {
            Ok(text) => text,
            Err(error) => {
                return Err(error);
            },
        };
        let annotations_doc = match field(doc, "annotations") {
            Ok(annotations_doc) => annotations_doc,
            Err(error) => {
                return Err(error);
            },
        };
        let annotations = match Annotations::decode(annotations_doc) {
            Ok(annotations) => annotations,
            Err(error) => {
                return Err(error);
            },
        };
        let plain_text = match text_field(doc, "plain_text") {
            Ok(plain_text) => plain_text,
            Err(error) => {
                return Err(error);
            },
        };
        let href = match optional_text_field(doc, "href") {
            Ok(Some(href)) => Some(String::from_str(href)),
            Ok(None) => None,
            Err(error) => {
                return Err(error);
            },
        };
        Ok(
            Title {
                title_type: String::from_str(title_type),
                text,
                annotations,
                plain_text: String::from_str(plain_text),
                href,
            },
        )
    }

    /// The text of the span without its setting.
    pub fn get_plain_text(&self) -> (res: &str)
        ensures
            res@ == self@.plain_text,
    {
        self.plain_text.as_str()
    }
}

} // verus!
