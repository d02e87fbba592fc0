use vstd::prelude::*;
use vstd::string::StringExecFns;
use crate::text::{option_view, str_eq, views};

verus! {

/// A JSON document held as plain values. A number keeps its decimal text;
/// the members of an object keep the order in which they were given.
#[derive(Debug, PartialEq, Eq)]
pub enum Json {
    Null,
    Bool(bool),
    Number(String),
    Str(String),
    Array(Vec<Json>),
    Object(Vec<Member>),
}

/// A member of a JSON object: a name and the value under it.
#[derive(Debug, PartialEq, Eq)]
pub struct Member {
    pub key: String,
    pub value: Json,
}

/// The mathematical value that a [`Json`] document stands for.
pub enum JsonView {
    Null,
    Bool(bool),
    Number(Seq<char>),
    Str(Seq<char>),
    Array(Seq<JsonView>),
    Object(Seq<MemberView>),
}

/// The mathematical value of a [`Member`].
pub struct MemberView {
    pub key: Seq<char>,
    pub value: JsonView,
}

/// The views of the members of an object, in order.
pub open spec fn member_views(members: Seq<Member>) -> Seq<MemberView> {
    Seq::new(members.len(), |i: int| members[i]@)
}

/// The value under the first member named `key`, if there is one.
pub open spec fn lookup(members: Seq<MemberView>, key: Seq<char>) -> Option<JsonView>
    decreases members.len(),
{
    if members.len() == 0 {
        None
    } else if members[0].key == key {
        Some(members[0].value)
    } else {
        lookup(members.drop_first(), key)
    }
}

/// Where several members share a name, the first is found: a value that is
/// found stands under the name at a place before which no member has that
/// name; where none is found, no member has the name.
pub proof fn lemma_lookup_is_first(members: Seq<MemberView>, key: Seq<char>)
    ensures
        match lookup(members, key) {
            Some(value) => exists|i: int|
                0 <= i < members.len() && (#[trigger] members[i]).key == key && members[i].value
                    == value && forall|j: int| 0 <= j < i ==> (#[trigger] members[j]).key != key,
            None => forall|i: int| 0 <= i < members.len() ==> (#[trigger] members[i]).key != key,
        },
    decreases members.len(),
{
    if members.len() > 0 && members[0].key != key {
        let rest = members.drop_first();
        lemma_lookup_is_first(rest, key);
        match lookup(rest, key) {
            Some(value) => {
                let i = choose|i: int|
                    0 <= i < rest.len() && (#[trigger] rest[i]).key == key && rest[i].value
                        == value && forall|j: int| 0 <= j < i ==> (#[trigger] rest[j]).key != key;
                assert(members[i + 1] == rest[i]);
                assert forall|j: int| 0 <= j < i + 1 implies (#[trigger] members[j]).key != key by {
                    if j > 0 {
                        assert(members[j] == rest[j - 1]);
                    }
                }
            },
            None => {
                assert forall|i: int| 0 <= i < members.len() implies (#[trigger] members[i]).key
                    != key by {
                    if i > 0 {
                        assert(members[i] == rest[i - 1]);
                    }
                }
            },
        }
    } else if members.len() > 0 {
        assert(members[0].key == key);
    }
}

impl JsonView {
    /// The value of the member `key` of an object; `None` for a missing
    /// member and for a document that is no object.
    pub open spec fn field(self, key: Seq<char>) -> Option<JsonView> {
        match self {
            JsonView::Object(members) => lookup(members, key),
            _ => None,
        }
    }

    /// The text of a string document.
    pub open spec fn text(self) -> Option<Seq<char>> {
        match self {
            JsonView::Str(text) => Some(text),
            _ => None,
        }
    }
}

impl View for Member {
    type V = MemberView;

    open spec fn view(&self) -> MemberView {
        MemberView { key: self.key@, value: self.value@ }
    }
}

impl View for Json {
    type V = JsonView;

    open spec fn view(&self) -> JsonView
        decreases self,
    {
        match self {
            Json::Null => JsonView::Null,
            Json::Bool(flag) => JsonView::Bool(*flag),
            Json::Number(text) => JsonView::Number(text@),
            Json::Str(text) => JsonView::Str(text@),
            Json::Array(items) => JsonView::Array(
                Seq::new(
                    items@.len(),
                    |i: int|
                        if 0 <= i < items@.len() {
                            items@[i].view()
                        } else {
                            JsonView::Null
                        },
                ),
            ),
            Json::Object(members) => JsonView::Object(
                Seq::new(
                    members@.len(),
                    |i: int|
                        if 0 <= i < members@.len() {
                            MemberView { key: members@[i].key@, value: members@[i].value.view() }
                        } else {
                            MemberView { key: Seq::empty(), value: JsonView::Null }
                        },
                ),
            ),
        }
    }
}

/// An array document is viewed item by item.
pub proof fn lemma_array_view(items: Vec<Json>)
    ensures
        Json::Array(items)@ == JsonView::Array(views(items@)),
{
    assert(Json::Array(items)@->Array_0 =~= views(items@));
}

/// An object document is viewed member by member.
pub proof fn lemma_object_view(members: Vec<Member>)
    ensures
        Json::Object(members)@ == JsonView::Object(member_views(members@)),
{
    assert(Json::Object(members)@->Object_0 =~= member_views(members@));
}

impl Clone for Json {
    fn clone(&self) -> (res: Self)
        ensures
            res@ == self@,
        decreases self,
    {
        match self {
            Json::Null => Json::Null,
            Json::Bool(flag) => Json::Bool(*flag),
            Json::Number(text) => Json::Number(text.clone()),
            Json::Str(text) => Json::Str(text.clone()),
            Json::Array(items) => {
                let mut copy: Vec<Json> = Vec::new();
                let mut i: usize = 0;
                while i < items.len()
                    invariant
                        i <= items@.len(),
                        copy@.len() == i,
                        forall|j: int| 0 <= j < i ==> copy@[j]@ == items@[j]@,
                        self == Json::Array(*items),
                    decreases items@.len() - i,
                {
                    assert(decreases_to!(items => items[i as int]));
                    assert(decreases_to!(self => self->Array_0));
                    copy.push(items[i].clone());
                    i += 1;
                }
                proof {
                    lemma_array_view(*items);
                    lemma_array_view(copy);
                    assert(views(copy@) =~= views(items@));
                }
                Json::Array(copy)
            },
            Json::Object(members) => {
                let mut copy: Vec<Member> = Vec::new();
                let mut i: usize = 0;
                while i < members.len()
                    invariant
                        i <= members@.len(),
                        copy@.len() == i,
                        forall|j: int|
                            0 <= j < i ==> copy@[j]@ == members@[j]@,
                        self == Json::Object(*members),
                    decreases members@.len() - i,
                {
                    assert(decreases_to!(members => members[i as int]));
                    assert(decreases_to!(self => self->Object_0));
                    copy.push(Member { key: members[i].key.clone(), value: members[i].value.clone() });
                    i += 1;
                }
                proof {
                    lemma_object_view(*members);
                    lemma_object_view(copy);
                    assert(member_views(copy@) =~= member_views(members@));
                }
                Json::Object(copy)
            },
        }
    }
}

/// The member that holds `value` under the name `key`.
pub open spec fn member(key: Seq<char>, value: JsonView) -> MemberView {
    MemberView { key, value }
}

/// A string, or `null` where there is none.
pub open spec fn text_or_null(text: Option<Seq<char>>) -> JsonView {
    match text {
        Some(text) => JsonView::Str(text),
        None => JsonView::Null,
    }
}

/// A string, or `null` where there is none.
pub fn optional_string(text: &Option<String>) -> (res: Json)
    ensures
        res@ == text_or_null(option_view(*text)),
{
    match text {
        Some(text) => Json::string(text.as_str()),
        None => Json::Null,
    }
}

impl Member {
    /// A member that holds `value` under the name `key`.
    pub fn new(key: &str, value: Json) -> (res: Member)
        ensures
            res@ == member(key@, value@),
    {
        Member { key: String::from_str(key), value }
    }
}

impl Json {
    /// A string document.
    pub fn string(text: &str) -> (res: Json)
        ensures
            res@ == JsonView::Str(text@),
    {
        Json::Str(String::from_str(text))
    }

    /// An array document of the given items.
    pub fn array(items: Vec<Json>) -> (res: Json)
        ensures
            res@ == JsonView::Array(views(items@)),
    {
        proof {
            lemma_array_view(items);
        }
        Json::Array(items)
    }

    /// An object document of the given members, in their order.
    pub fn object(members: Vec<Member>) -> (res: Json)
        ensures
            res@ == JsonView::Object(member_views(members@)),
    {
        proof {
            lemma_object_view(members);
        }
        Json::Object(members)
    }

    /// An object document with one member.
    pub fn object_of(key: &str, value: Json) -> (res: Json)
        ensures
            res@ == JsonView::Object(seq![member(key@, value@)]),
    {
        let mut members: Vec<Member> = Vec::new();
        members.push(Member::new(key, value));
        assert(member_views(members@) =~= seq![member(key@, value@)]);
        Json::object(members)
    }

    /// Whether the document is `null`.
    pub fn is_null(&self) -> (res: bool)
        ensures
            res == (self@ is Null),
    {
        match self {
            Json::Null => true,
            _ => false,
        }
    }

    /// The flag of a boolean document.
    pub fn as_bool(&self) -> (res: Option<bool>)
        ensures
            res == (match self@ {
                JsonView::Bool(flag) => Some(flag),
                _ => None,
            }),
    {
        match self {
            Json::Bool(flag) => Some(*flag),
            _ => None,
        }
    }

    /// The text of a string document.
    pub fn as_str(&self) -> (res: Option<&str>)
        ensures
            match res {
                Some(text) => self@.text() == Some(text@),
                None => self@.text() is None,
            },
    {
        match self {
            Json::Str(text) => Some(text.as_str()),
            _ => None,
        }
    }

    /// The decimal text of a number document.
    pub fn as_number(&self) -> (res: Option<&str>)
        ensures
            match res {
                Some(text) => self@ == JsonView::Number(text@),
                None => !(self@ is Number),
            },
    {
        match self {
            Json::Number(text) => Some(text.as_str()),
            _ => None,
        }
    }

    /// The items of an array document.
    pub fn as_array(&self) -> (res: Option<&Vec<Json>>)
        ensures
            match res {
                Some(items) => self@ == JsonView::Array(views(items@)),
                None => !(self@ is Array),
            },
    {
        match self {
            Json::Array(items) => {
                proof {
                    lemma_array_view(*items);
                }
                Some(items)
            },
            _ => None,
        }
    }

    /// The members of an object document.
    pub fn as_object(&self) -> (res: Option<&Vec<Member>>)
        ensures
            match res {
                Some(members) => self@ == JsonView::Object(member_views(members@)),
                None => !(self@ is Object),
            },
    {
        match self {
            Json::Object(members) => {
                proof {
                    lemma_object_view(*members);
                }
                Some(members)
            },
            _ => None,
        }
    }

    /// The value of the member `key` of an object: the first one of that
    /// name. `None` for a missing member and for a document that is no object.
    pub fn get(&self, key: &str) -> (res: Option<&Json>)
        ensures
            match res {
                Some(value) => self@.field(key@) == Some(value@),
                None => self@.field(key@) is None,
            },
    {
        match self {
            Json::Object(members) => {
                proof {
                    lemma_object_view(*members);
                }
                let mut i: usize = 0;
                assert(member_views(members@).subrange(0, members@.len() as int)
                    =~= member_views(members@));
                while i < members.len()
                    invariant
                        i <= members@.len(),
                        self@ == JsonView::Object(member_views(members@)),
                        lookup(member_views(members@), key@) == lookup(
                            member_views(members@).subrange(i as int, members@.len() as int),
                            key@,
                        ),
                    decreases members@.len() - i,
                {
                    let ghost rest = member_views(members@).subrange(
                        i as int,
                        members@.len() as int,
                    );
                    assert(rest.drop_first() =~= member_views(members@).subrange(
                        i as int + 1,
                        members@.len() as int,
                    ));
                    assert(rest[0] == members@[i as int]@);
                    if str_eq(members[i].key.as_str(), key) {
                        return Some(&members[i].value);
                    }
                    i += 1;
                }
                None
            },
            _ => None,
        }
    }
}

} // verus!
