use vstd::prelude::*;
use crate::data_source::types::{
    decode_kind, kind_name, lemma_kind_name_is_stable, lemma_kind_name_lengths, name_head,
    PropertyInfo,
};
use crate::errors::{DecodeErrorView, ValidationError};
use crate::json::{lookup, member, JsonView, MemberView};
use crate::types::{
    decode_names, decode_payload, decode_value, encode_payload, encode_value, named,
    PropertyValueView,
};

verus! {

/// The kinds whose values can be written to a page.
pub open spec fn is_writable(kind: PropertyInfo) -> bool {
    kind == PropertyInfo::Checkbox || kind == PropertyInfo::Date || kind == PropertyInfo::Select
        || kind == PropertyInfo::MultiSelect || kind == PropertyInfo::Status
}

/// An object with the one member `name`, a string, and nothing else.
pub open spec fn is_named(doc: JsonView) -> bool {
    &&& doc matches JsonView::Object(members)
    &&& members.len() == 1
    &&& members[0].key == "name"@
    &&& members[0].value is Str
}

/// A payload in the exact shape in which a value of the kind is written: a
/// boolean for a checkbox; an object with `name` alone for a select and a
/// status; an array of such objects for a multi-select; for a date an
/// object with `start`, or with `start` and then `end`, each a string.
pub open spec fn is_write_payload(kind: PropertyInfo, payload: JsonView) -> bool {
    match kind {
        PropertyInfo::Checkbox => payload is Bool,
        PropertyInfo::Select => is_named(payload),
        PropertyInfo::Status => is_named(payload),
        PropertyInfo::MultiSelect => {
            &&& payload matches JsonView::Array(items)
            &&& forall|i: int| 0 <= i < items.len() ==> is_named(#[trigger] items[i])
        },
        PropertyInfo::Date => {
            &&& payload matches JsonView::Object(members)
            &&& members.len() == 1 || members.len() == 2
            &&& members[0].key == "start"@
            &&& members[0].value is Str
            &&& members.len() == 2 ==> members[1].key == "end"@ && members[1].value is Str
        },
        _ => false,
    }
}

/// A value can be written exactly when its kind is one of the writable
/// ones; any other is refused with the kind named in the error.
pub proof fn lemma_encode_succeeds_when_writable(value: PropertyValueView)
    ensures
        encode_value(value) is Ok <==> is_writable(value.kind()),
        !is_writable(value.kind()) ==> encode_value(value) == Err::<JsonView, ValidationError>(
            ValidationError::UnsupportedWriteKind(value.kind()),
        ),
        encode_value(value) is Ok ==> is_write_payload(value.kind(), encode_payload(value)->0),
{
}

/// What was written is read back: the payload that writes the names of a
/// multi-select gives the same names, in the same order.
pub proof fn lemma_names_are_read_back(names: Seq<Seq<char>>)
    ensures
        decode_names(Seq::new(names.len(), |i: int| named(names[i]))) == Ok::<
            Seq<Seq<char>>,
            DecodeErrorView,
        >(names),
    decreases names.len(),
{
    let items = Seq::new(names.len(), |i: int| named(names[i]));
    if names.len() == 0 {
        assert(names =~= Seq::empty());
    } else {
        reveal_with_fuel(lookup, 2);
        let shorter = names.drop_last();
        lemma_names_are_read_back(shorter);
        assert(items.drop_last() =~= Seq::new(shorter.len(), |i: int| named(shorter[i])));
        assert(items.last() == named(names.last()));
        assert(shorter.push(names.last()) =~= names);
    }
}

/// Reading inverts writing: the payload that writes a value, read as the
/// kind of that value asks, gives the value back.
pub proof fn lemma_decode_inverts_encode(value: PropertyValueView)
    requires
        is_writable(value.kind()),
    ensures
        encode_payload(value) is Some,
        decode_payload(value.kind(), encode_payload(value)->0) == Ok::<
            PropertyValueView,
            DecodeErrorView,
        >(value),
{
    reveal_strlit("start");
    reveal_strlit("end");
    reveal_with_fuel(lookup, 3);
    match value {
        PropertyValueView::MultiSelect(names) => {
            lemma_names_are_read_back(names);
        },
        PropertyValueView::Date(start, Some(end)) => {
            let members = seq![
                member("start"@, JsonView::Str(start)),
                member("end"@, JsonView::Str(end)),
            ];
            assert(members.drop_first() =~= seq![member("end"@, JsonView::Str(end))]);
            assert("start"@.len() != "end"@.len());
        },
        PropertyValueView::Date(start, None) => {
            let members = seq![member("start"@, JsonView::Str(start))];
            assert(members.drop_first() =~= Seq::<MemberView>::empty());
            assert("start"@.len() != "end"@.len());
        },
        _ => {},
    }
}

/// The names of options that each hold `name` alone are written back as
/// the same options.
pub proof fn lemma_names_are_written_back(items: Seq<JsonView>)
    requires
        forall|i: int| 0 <= i < items.len() ==> is_named(#[trigger] items[i]),
    ensures
        decode_names(items) matches Ok(names) && Seq::new(names.len(), |i: int| named(names[i]))
            == items,
    decreases items.len(),
{
    if items.len() == 0 {
        assert(Seq::new(0, |i: int| named(Seq::<Seq<char>>::empty()[i])) =~= items);
    } else {
        let shorter = items.drop_last();
        assert forall|i: int| 0 <= i < shorter.len() implies is_named(#[trigger] shorter[i]) by {
            assert(shorter[i] == items[i]);
        }
        lemma_names_are_written_back(shorter);
        let last = items.last();
        assert(is_named(last));
        lemma_named_is_written_back(last);
        let names = decode_names(items)->Ok_0;
        let written = Seq::new(names.len(), |i: int| named(names[i]));
        assert(written =~= items) by {
            assert forall|i: int| 0 <= i < items.len() implies written[i] == items[i] by {
                if i < shorter.len() {
                    let short_names = decode_names(shorter)->Ok_0;
                    let short_written = Seq::new(
                        short_names.len(),
                        |i: int| named(short_names[i]),
                    );
                    assert(short_written[i] == shorter[i]);
                }
            }
        }
    }
}

/// An object that holds `name` alone is the one written for that name.
pub proof fn lemma_named_is_written_back(doc: JsonView)
    requires
        is_named(doc),
    ensures
        doc == named(doc->Object_0[0].value->Str_0),
        lookup(doc->Object_0, "name"@) == Some(doc->Object_0[0].value),
{
    let members = doc->Object_0;
    assert(members =~= seq![member("name"@, members[0].value)]);
}

/// Writing inverts reading: a payload in the exact shape in which its kind
/// is written is read without error, and the value read is written as that
/// same payload.
pub proof fn lemma_encode_inverts_decode(kind: PropertyInfo, payload: JsonView)
    requires
        is_write_payload(kind, payload),
    ensures
        decode_payload(kind, payload) matches Ok(value) && value.kind() == kind && encode_payload(
            value,
        ) == Some(payload),
{
    reveal_strlit("start");
    reveal_strlit("end");
    reveal_with_fuel(lookup, 3);
    match kind {
        PropertyInfo::Select => {
            lemma_named_is_written_back(payload);
        },
        PropertyInfo::Status => {
            lemma_named_is_written_back(payload);
        },
        PropertyInfo::MultiSelect => {
            lemma_names_are_written_back(payload->Array_0);
        },
        PropertyInfo::Date => {
            let members = payload->Object_0;
            assert("start"@.len() != "end"@.len());
            if members.len() == 1 {
                assert(members.drop_first() =~= Seq::<MemberView>::empty());
                assert(members =~= seq![member("start"@, members[0].value)]);
            } else {
                assert(members.drop_first() =~= seq![members[1]]);
                assert(members =~= seq![
                    member("start"@, members[0].value),
                    member("end"@, members[1].value),
                ]);
            }
        },
        _ => {},
    }
}

/// The round trip of a property: where a property is read without error
/// and the member that its kind names has the exact shape in which that
/// kind is written, the value read is written as that member alone, under
/// the name of the kind.
pub proof fn lemma_write_of_read_property(doc: JsonView)
    requires
        decode_value(doc) is Ok,
        is_write_payload(
            decode_value(doc)->Ok_0.kind(),
            doc.field(kind_name(decode_value(doc)->Ok_0.kind()))->0,
        ),
    ensures
        encode_value(decode_value(doc)->Ok_0) == Ok::<JsonView, ValidationError>(
            JsonView::Object(
                seq![
                    member(
                        kind_name(decode_value(doc)->Ok_0.kind()),
                        doc.field(kind_name(decode_value(doc)->Ok_0.kind()))->0,
                    ),
                ],
            ),
        ),
{
    let kind = decode_kind(doc)->Ok_0;
    let payload = doc.field(kind_name(kind))->0;
    lemma_decoded_kind(doc);
    lemma_encode_inverts_decode(kind, payload);
}

/// The value read from a property has the kind that the property declares.
pub proof fn lemma_decoded_kind(doc: JsonView)
    requires
        decode_value(doc) is Ok,
    ensures
        decode_kind(doc) == Ok::<PropertyInfo, DecodeErrorView>(
            decode_value(doc)->Ok_0.kind(),
        ),
{
}

/// The round trip of a value: the document that writes a value, with a
/// `type` member put before it that names the kind, is read as that value.
pub proof fn lemma_read_of_written_value(value: PropertyValueView)
    requires
        is_writable(value.kind()),
    ensures
        decode_value(
            JsonView::Object(
                seq![
                    member("type"@, JsonView::Str(kind_name(value.kind()))),
                    member(kind_name(value.kind()), encode_payload(value)->0),
                ],
            ),
        ) == Ok::<PropertyValueView, DecodeErrorView>(value),
{
    reveal_with_fuel(lookup, 3);
    let kind = value.kind();
    let payload = encode_payload(value)->0;
    let members = seq![
        member("type"@, JsonView::Str(kind_name(kind))),
        member(kind_name(kind), payload),
    ];
    lemma_kind_name_is_stable(kind);
    lemma_decode_inverts_encode(value);
    assert(members.drop_first() =~= seq![member(kind_name(kind), payload)]);
    lemma_kind_name_differs_from_type(kind);
}

/// The name of a kind is never `type`.
pub proof fn lemma_kind_name_differs_from_type(kind: PropertyInfo)
    ensures
        kind_name(kind) != "type"@,
{
    reveal_strlit("type");
    reveal_strlit("date");
    assert(name_head("type"@) == (4nat, 't', 'y'));
    assert(name_head("date"@) == (4nat, 'd', 'a'));
    lemma_kind_name_lengths(kind);
}

} // verus!
