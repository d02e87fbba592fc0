use vstd::prelude::*;
use vstd::string::StringExecFns;
use crate::errors::{DecodeError, DecodeErrorView};
use crate::json::{member_views, Json, JsonView, Member, MemberView};
use crate::text::{option_view, result_view, views};

verus! {

/// The member `key`, which must be there.
pub open spec fn require_field(doc: JsonView, key: Seq<char>) -> Result<JsonView, DecodeErrorView> {
    match doc.field(key) {
        Some(value) => Ok(value),
        None => Err(DecodeErrorView::MissingField(key)),
    }
}

/// The text of the member `key`, which must be there and be a string.
pub open spec fn require_text(doc: JsonView, key: Seq<char>) -> Result<Seq<char>, DecodeErrorView> {
    match doc.field(key) {
        None => Err(DecodeErrorView::MissingField(key)),
        Some(JsonView::Str(text)) => Ok(text),
        Some(_) => Err(DecodeErrorView::WrongType(key)),
    }
}

/// The text of the member `key`, which may be missing or `null` and must
/// else be a string.
pub open spec fn optional_text(doc: JsonView, key: Seq<char>) -> Result<
    Option<Seq<char>>,
    DecodeErrorView,
> {
    match doc.field(key) {
        None => Ok(None),
        Some(JsonView::Null) => Ok(None),
        Some(JsonView::Str(text)) => Ok(Some(text)),
        Some(_) => Err(DecodeErrorView::WrongType(key)),
    }
}

/// The flag of the member `key`, which must be there and be a boolean.
pub open spec fn require_flag(doc: JsonView, key: Seq<char>) -> Result<bool, DecodeErrorView> {
    match doc.field(key) {
        None => Err(DecodeErrorView::MissingField(key)),
        Some(JsonView::Bool(flag)) => Ok(flag),
        Some(_) => Err(DecodeErrorView::WrongType(key)),
    }
}

/// The flag of the member `key`, which may be missing or `null` and must
/// else be a boolean.
pub open spec fn optional_flag(doc: JsonView, key: Seq<char>) -> Result<
    Option<bool>,
    DecodeErrorView,
> {
    match doc.field(key) {
        None => Ok(None),
        Some(JsonView::Null) => Ok(None),
        Some(JsonView::Bool(flag)) => Ok(Some(flag)),
        Some(_) => Err(DecodeErrorView::WrongType(key)),
    }
}

/// The members of the member `key`, which must be there and be an object.
pub open spec fn require_members(doc: JsonView, key: Seq<char>) -> Result<
    Seq<MemberView>,
    DecodeErrorView,
> {
    match doc.field(key) {
        None => Err(DecodeErrorView::MissingField(key)),
        Some(JsonView::Object(members)) => Ok(members),
        Some(_) => Err(DecodeErrorView::WrongType(key)),
    }
}

/// The items of the member `key`, which must be there and be an array.
pub open spec fn require_items(doc: JsonView, key: Seq<char>) -> Result<
    Seq<JsonView>,
    DecodeErrorView,
> {
    match doc.field(key) {
        None => Err(DecodeErrorView::MissingField(key)),
        Some(JsonView::Array(items)) => Ok(items),
        Some(_) => Err(DecodeErrorView::WrongType(key)),
    }
}

/// The member `key`, where it is there and not `null`.
pub open spec fn optional_field(doc: JsonView, key: Seq<char>) -> Option<JsonView> {
    match doc.field(key) {
        None => None,
        Some(JsonView::Null) => None,
        Some(value) => Some(value),
    }
}

/// The record under the member `key`, which must be there, read by
/// `decode_one`.
pub open spec fn require_record<T>(
    doc: JsonView,
    key: Seq<char>,
    decode_one: spec_fn(JsonView) -> Result<T, DecodeErrorView>,
) -> Result<T, DecodeErrorView> {
    match require_field(doc, key) {
        Err(error) => Err(error),
        Ok(inner) => decode_one(inner),
    }
}

/// Each item read by `decode_one`, in the order of the items. The first
/// item that is refused decides the error.
pub open spec fn decode_all<A, T>(
    items: Seq<A>,
    decode_one: spec_fn(A) -> Result<T, DecodeErrorView>,
) -> Result<Seq<T>, DecodeErrorView>
    decreases items.len(),
{
    if items.len() == 0 {
        Ok(Seq::empty())
    } else {
        match decode_all(items.drop_last(), decode_one) {
            Err(error) => Err(error),
            Ok(values) => match decode_one(items.last()) {
                Ok(value) => Ok(values.push(value)),
                Err(error) => Err(error),
            },
        }
    }
}

/// Once a prefix of the items is refused, every longer prefix is refused
/// with the same error.
pub proof fn lemma_decode_all_fails_on<A, T>(
    items: Seq<A>,
    decode_one: spec_fn(A) -> Result<T, DecodeErrorView>,
    upto: int,
)
    requires
        0 <= upto <= items.len(),
        decode_all(items.subrange(0, upto), decode_one) is Err,
    ensures
        decode_all(items, decode_one) == decode_all(items.subrange(0, upto), decode_one),
    decreases items.len() - upto,
{
    if upto == items.len() {
        assert(items.subrange(0, upto) =~= items);
    } else {
        let next = items.subrange(0, upto + 1);
        assert(next.drop_last() =~= items.subrange(0, upto));
        lemma_decode_all_fails_on(items, decode_one, upto + 1);
    }
}

/// One more item read: the values of a prefix that was read without error,
/// with the value of the next item behind them, or the error of that item.
pub proof fn lemma_decode_all_step<A, T>(
    items: Seq<A>,
    decode_one: spec_fn(A) -> Result<T, DecodeErrorView>,
    upto: int,
)
    requires
        0 <= upto < items.len(),
        decode_all(items.subrange(0, upto), decode_one) is Ok,
    ensures
        decode_all(items.subrange(0, upto + 1), decode_one) == (match decode_one(items[upto]) {
            Ok(value) => Ok(decode_all(items.subrange(0, upto), decode_one)->Ok_0.push(value)),
            Err(error) => Err(error),
        }),
{
    let next = items.subrange(0, upto + 1);
    assert(next.drop_last() =~= items.subrange(0, upto));
    assert(next.last() == items[upto]);
}

/// The items are read in their order, one value for each item: reading
/// succeeds exactly when every item is read without error, and the value at
/// each place is then the one read from the item at that place.
pub proof fn lemma_decode_all_keeps_order<A, T>(
    items: Seq<A>,
    decode_one: spec_fn(A) -> Result<T, DecodeErrorView>,
)
    ensures
        decode_all(items, decode_one) is Ok <==> forall|i: int|
            0 <= i < items.len() ==> (#[trigger] decode_one(items[i])) is Ok,
        decode_all(items, decode_one) matches Ok(values) ==> values.len() == items.len()
            && forall|i: int|
            0 <= i < items.len() ==> (#[trigger] decode_one(items[i])) == Ok::<T, DecodeErrorView>(
                values[i],
            ),
        decode_all(items, decode_one) matches Err(error) ==> exists|i: int|
            0 <= i < items.len() && (#[trigger] decode_one(items[i])) == Err::<T, DecodeErrorView>(
                error,
            ) && forall|j: int| 0 <= j < i ==> (#[trigger] decode_one(items[j])) is Ok,
    decreases items.len(),
{
    if items.len() > 0 {
        let shorter = items.drop_last();
        lemma_decode_all_keeps_order(shorter, decode_one);
        assert forall|i: int| 0 <= i < shorter.len() implies shorter[i] == items[i] by {}
        match decode_all(shorter, decode_one) {
            Ok(values) => {
                match decode_one(items.last()) {
                    Ok(value) => {
                        assert forall|i: int| 0 <= i < items.len() implies (#[trigger] decode_one(
                            items[i],
                        )) == Ok::<T, DecodeErrorView>(values.push(value)[i]) by {
                            if i < shorter.len() {
                                assert(shorter[i] == items[i]);
                            }
                        }
                    },
                    Err(error) => {
                        let last = items.len() - 1;
                        assert(decode_one(items[last]) == Err::<T, DecodeErrorView>(error));
                        assert forall|j: int| 0 <= j < last implies (#[trigger] decode_one(
                            items[j],
                        )) is Ok by {
                            assert(shorter[j] == items[j]);
                        }
                    },
                }
            },
            Err(error) => {
                let i = choose|i: int|
                    0 <= i < shorter.len() && (#[trigger] decode_one(shorter[i])) == Err::<
                        T,
                        DecodeErrorView,
                    >(error) && forall|j: int|
                        0 <= j < i ==> (#[trigger] decode_one(shorter[j])) is Ok;
                assert(shorter[i] == items[i]);
                assert(decode_one(items[i]) == Err::<T, DecodeErrorView>(error));
                assert forall|j: int| 0 <= j < i implies (#[trigger] decode_one(items[j])) is Ok by {
                    assert(shorter[j] == items[j]);
                }
            },
        }
    }
}

/// Reads the member `key`, which must be there.
pub fn field<'a>(doc: &'a Json, key: &str) -> (res: Result<&'a Json, DecodeError>)
    ensures
        result_view(res) == require_field(doc@, key@),
{
    match doc.get(key) {
        Some(value) => Ok(value),
        None => Err(DecodeError::MissingField(String::from_str(key))),
    }
}

/// Reads the member `key`, where it is there and not `null`.
pub fn optional_member<'a>(doc: &'a Json, key: &str) -> (res: Option<&'a Json>)
    ensures
        option_view(res) == optional_field(doc@, key@),
{
    match doc.get(key) {
        None => None,
        Some(value) => {
            if value.is_null() {
                None
            } else {
                Some(value)
            }
        },
    }
}

/// Reads the text of the member `key`, which must be there and be a string.
pub fn text_field<'a>(doc: &'a Json, key: &str) -> (res: Result<&'a str, DecodeError>)
    ensures
        result_view(res) == require_text(doc@, key@),
{
    match doc.get(key) {
        None => Err(DecodeError::MissingField(String::from_str(key))),
        Some(value) => match value.as_str() {
            Some(text) => Ok(text),
            None => Err(DecodeError::WrongType(String::from_str(key))),
        },
    }
}

/// Reads the text of the member `key`, which may be missing or `null` and
/// must else be a string.
pub fn optional_text_field<'a>(doc: &'a Json, key: &str) -> (res: Result<
    Option<&'a str>,
    DecodeError,
>)
    ensures
        match res {
            Ok(text) => optional_text(doc@, key@) == Ok::<Option<Seq<char>>, DecodeErrorView>(
                option_view(text),
            ),
            Err(error) => optional_text(doc@, key@) == Err::<Option<Seq<char>>, DecodeErrorView>(
                error@,
            ),
        },
{
    match doc.get(key) {
        None => Ok(None),
        Some(value) => {
            if value.is_null() {
                Ok(None)
            } else {
                match value.as_str() {
                    Some(text) => Ok(Some(text)),
                    None => Err(DecodeError::WrongType(String::from_str(key))),
                }
            }
        },
    }
}

/// Reads the flag of the member `key`, which must be there and be a boolean.
pub fn flag_field(doc: &Json, key: &str) -> (res: Result<bool, DecodeError>)
    ensures
        match res {
            Ok(flag) => require_flag(doc@, key@) == Ok::<bool, DecodeErrorView>(flag),
            Err(error) => require_flag(doc@, key@) == Err::<bool, DecodeErrorView>(error@),
        },
{
    match doc.get(key) {
        None => Err(DecodeError::MissingField(String::from_str(key))),
        Some(value) => match value.as_bool() {
            Some(flag) => Ok(flag),
            None => Err(DecodeError::WrongType(String::from_str(key))),
        },
    }
}

/// Reads the flag of the member `key`, which may be missing or `null` and
/// must else be a boolean.
pub fn optional_flag_field(doc: &Json, key: &str) -> (res: Result<Option<bool>, DecodeError>)
    ensures
        match res {
            Ok(flag) => optional_flag(doc@, key@) == Ok::<Option<bool>, DecodeErrorView>(flag),
            Err(error) => optional_flag(doc@, key@) == Err::<Option<bool>, DecodeErrorView>(
                error@,
            ),
        },
{
    match doc.get(key) {
        None => Ok(None),
        Some(value) => {
            if value.is_null() {
                Ok(None)
            } else {
                match value.as_bool() {
                    Some(flag) => Ok(Some(flag)),
                    None => Err(DecodeError::WrongType(String::from_str(key))),
                }
            }
        },
    }
}

/// Reads the items of the member `key`, which must be there and be an array.
pub fn items_field<'a>(doc: &'a Json, key: &str) -> (res: Result<&'a Vec<Json>, DecodeError>)
    ensures
        match res {
            Ok(items) => require_items(doc@, key@) == Ok::<Seq<JsonView>, DecodeErrorView>(
                views(items@),
            ),
            Err(error) => require_items(doc@, key@) == Err::<Seq<JsonView>, DecodeErrorView>(
                error@,
            ),
        },
{
    match doc.get(key) {
        None => Err(DecodeError::MissingField(String::from_str(key))),
        Some(value) => match value.as_array() {
            Some(items) => Ok(items),
            None => Err(DecodeError::WrongType(String::from_str(key))),
        },
    }
}

/// A record that can be read from a document.
pub trait FromJson: Sized + View {
    /// What a document is read as: the value, or why it is refused.
    spec fn read(doc: JsonView) -> Result<Self::V, DecodeErrorView>;

    /// Reads the record from its document.
    fn from_json(doc: &Json) -> (res: Result<Self, DecodeError>)
        ensures
            result_view(res) == Self::read(doc@),
    ;
}

/// The records that the items of an array describe, in their order.
pub open spec fn read_all<T: FromJson>(items: Seq<JsonView>) -> Result<Seq<T::V>, DecodeErrorView> {
    decode_all(items, |item: JsonView| T::read(item))
}

/// Reads the records that the items of an array describe, in their order.
/// The first item that is refused decides the error.
pub fn from_json_all<T: FromJson>(items: &Vec<Json>) -> (res: Result<Vec<T>, DecodeError>)
    ensures
        match res {
            Ok(records) => read_all::<T>(views(items@)) == Ok::<Seq<T::V>, DecodeErrorView>(
                views(records@),
            ),
            Err(error) => read_all::<T>(views(items@)) == Err::<Seq<T::V>, DecodeErrorView>(
                error@,
            ),
        },
{
    let mut records: Vec<T> = Vec::new();
    let mut i: usize = 0;
    let ghost one = |item: JsonView| T::read(item);
    assert(views(items@).subrange(0, 0) =~= Seq::<JsonView>::empty());
    assert(views(records@) =~= Seq::<T::V>::empty());
    while i < items.len()
        invariant
            i <= items@.len(),
            one == |item: JsonView| T::read(item),
            decode_all(views(items@).subrange(0, i as int), one) == Ok::<
                Seq<T::V>,
                DecodeErrorView,
            >(views(records@)),
        decreases items@.len() - i,
    {
        proof {
            lemma_decode_all_step(views(items@), one, i as int);
        }
        let ghost before = views(records@);
        match T::from_json(&items[i]) {
            Ok(record) => {
                records.push(record);
                assert(views(records@) =~= before.push(record@));
            },
            Err(error) => {
                proof {
                    lemma_decode_all_fails_on(views(items@), one, i as int + 1);
                }
                return Err(error);
            },
        }
        i += 1;
    }
    assert(views(items@).subrange(0, items@.len() as int) =~= views(items@));
    Ok(records)
}

/// The records under the member `key`, which must be there and be an array.
pub open spec fn require_records<T: FromJson>(
    doc: JsonView,
    key: Seq<char>,
) -> Result<Seq<T::V>, DecodeErrorView> {
    match require_items(doc, key) {
        Err(error) => Err(error),
        Ok(items) => read_all::<T>(items),
    }
}

/// Reads the records under the member `key`, which must be there and be an
/// array.
pub fn records_field<T: FromJson>(doc: &Json, key: &str) -> (res: Result<
    Vec<T>,
    DecodeError,
>)
    ensures
        match res {
            Ok(records) => require_records::<T>(doc@, key@) == Ok::<Seq<T::V>, DecodeErrorView>(
                views(records@),
            ),
            Err(error) => require_records::<T>(doc@, key@) == Err::<Seq<T::V>, DecodeErrorView>(
                error@,
            ),
        },
{
    match items_field(doc, key) {
        Err(error) => Err(error),
        Ok(items) => from_json_all::<T>(items),
    }
}

/// Reads the members of the member `key`, which must be there and be an
/// object.
pub fn members_field<'a>(doc: &'a Json, key: &str) -> (res: Result<&'a Vec<Member>, DecodeError>)
    ensures
        match res {
            Ok(members) => require_members(doc@, key@) == Ok::<Seq<MemberView>, DecodeErrorView>(
                member_views(members@),
            ),
            Err(error) => require_members(doc@, key@) == Err::<Seq<MemberView>, DecodeErrorView>(
                error@,
            ),
        },
{
    match doc.get(key) {
        None => Err(DecodeError::MissingField(String::from_str(key))),
        Some(value) => match value.as_object() {
            Some(members) => Ok(members),
            None => Err(DecodeError::WrongType(String::from_str(key))),
        },
    }
}

} // verus!
