use vstd::prelude::*;
use crate::data_source::types::{decode_kind, kind_named, PropertyInfo};
use crate::decode::{lemma_decode_all_keeps_order, require_text};
use crate::errors::DecodeErrorView;
use crate::json::JsonView;
use crate::text::{
    join, lemma_join_len, lemma_join_places, lemma_split_inverts_join, part_start, split,
    total_len,
};
use crate::types::{decode_names, decode_payload, decode_value, PropertyValue, PropertyValueView};

verus! {

/// A property whose `type` names no known kind is refused, and the name is
/// given back in the error: no kind stands in for an unknown one.
pub proof fn lemma_unknown_kind_is_refused(doc: JsonView, raw: Seq<char>)
    requires
        doc.field("type"@) == Some(JsonView::Str(raw)),
        kind_named(raw) is None,
    ensures
        decode_kind(doc) == Err::<PropertyInfo, DecodeErrorView>(
            DecodeErrorView::UnknownPropertyKind(raw),
        ),
        decode_value(doc) == Err::<PropertyValueView, DecodeErrorView>(
            DecodeErrorView::UnknownPropertyKind(raw),
        ),
{
}

/// What a value shows depends on the value alone: two values that stand
/// for the same thing are shown as the same text, however often one asks.
pub proof fn lemma_display_is_pure(first: PropertyValue, second: PropertyValue)
    requires
        first@ == second@,
    ensures
        first@.display() == second@.display(),
{
}

/// A date that gives a start and no end is read with no end, and is shown
/// as its start and nothing more.
pub proof fn lemma_date_with_start_alone(payload: JsonView, start: Seq<char>)
    requires
        payload.field("start"@) == Some(JsonView::Str(start)),
        payload.field("end"@) is None,
    ensures
        decode_payload(PropertyInfo::Date, payload) == Ok::<PropertyValueView, DecodeErrorView>(
            PropertyValueView::Date(start, None),
        ),
        PropertyValueView::Date(start, None).display() == start,
{
}

/// A date that gives a start and an end is read with both, and is shown as
/// the start, `~`, and the end.
pub proof fn lemma_date_with_end(payload: JsonView, start: Seq<char>, end: Seq<char>)
    requires
        payload.field("start"@) == Some(JsonView::Str(start)),
        payload.field("end"@) == Some(JsonView::Str(end)),
    ensures
        decode_payload(PropertyInfo::Date, payload) == Ok::<PropertyValueView, DecodeErrorView>(
            PropertyValueView::Date(start, Some(end)),
        ),
        PropertyValueView::Date(start, Some(end)).display() == start + seq!['~'] + end,
{
    reveal_strlit("~");
    assert("~"@ =~= seq!['~']);
}

/// A multi-select is read in the order of the wire: one name for each
/// option, the name at each place being that of the option at that place.
/// Where an option has no name that is a string, the first such option
/// decides the error.
pub proof fn lemma_multi_select_keeps_order(items: Seq<JsonView>)
    ensures
        match decode_payload(PropertyInfo::MultiSelect, JsonView::Array(items)) {
            Ok(value) => value matches PropertyValueView::MultiSelect(names) && names.len()
                == items.len() && forall|i: int|
                0 <= i < items.len() ==> #[trigger] require_text(items[i], "name"@) == Ok::<
                    Seq<char>,
                    DecodeErrorView,
                >(names[i]),
            Err(error) => exists|i: int|
                0 <= i < items.len() && #[trigger] require_text(items[i], "name"@) == Err::<
                    Seq<char>,
                    DecodeErrorView,
                >(error) && forall|j: int|
                    0 <= j < i ==> (#[trigger] require_text(items[j], "name"@)) is Ok,
        },
{
    let one = |item: JsonView| require_text(item, "name"@);
    lemma_decode_all_keeps_order(items, one);
    match decode_names(items) {
        Ok(names) => {
            assert forall|i: int| 0 <= i < items.len() implies #[trigger] require_text(
                items[i],
                "name"@,
            ) == Ok::<Seq<char>, DecodeErrorView>(names[i]) by {
                assert(one(items[i]) == Ok::<Seq<char>, DecodeErrorView>(names[i]));
            }
        },
        Err(error) => {
            let i = choose|i: int|
                0 <= i < items.len() && (#[trigger] one(items[i])) == Err::<
                    Seq<char>,
                    DecodeErrorView,
                >(error) && forall|j: int| 0 <= j < i ==> (#[trigger] one(items[j])) is Ok;
            assert(require_text(items[i], "name"@) == Err::<Seq<char>, DecodeErrorView>(error));
            assert forall|j: int| 0 <= j < i implies (#[trigger] require_text(
                items[j],
                "name"@,
            )) is Ok by {
                assert(one(items[j]) is Ok);
            }
        },
    }
}

/// A multi-select is shown as its names with `|` between them. The text is
/// as long as the names together and one `|` for each gap; each name
/// stands in it at its place, whole and in order.
pub proof fn lemma_multi_select_display(names: Seq<Seq<char>>)
    ensures
        PropertyValueView::MultiSelect(names).display() == join(names, seq!['|']),
        join(names, seq!['|']).len() == total_len(names) + (if names.len() == 0 {
            0
        } else {
            names.len() - 1
        }),
        forall|i: int|
            0 <= i < names.len() ==> 0 <= part_start(names, seq!['|'], i) && part_start(
                names,
                seq!['|'],
                i,
            ) + (#[trigger] names[i]).len() <= join(names, seq!['|']).len() && join(
                names,
                seq!['|'],
            ).subrange(
                part_start(names, seq!['|'], i),
                part_start(names, seq!['|'], i) + names[i].len(),
            ) == names[i],
{
    reveal_strlit("|");
    assert("|"@ =~= seq!['|']);
    lemma_join_len(names, seq!['|']);
    assert forall|i: int| 0 <= i < names.len() implies 0 <= part_start(names, seq!['|'], i)
        && part_start(names, seq!['|'], i) + (#[trigger] names[i]).len() <= join(
        names,
        seq!['|'],
    ).len() && join(names, seq!['|']).subrange(
        part_start(names, seq!['|'], i),
        part_start(names, seq!['|'], i) + names[i].len(),
    ) == names[i] by {
        lemma_join_places(names, seq!['|'], i);
    }
}

/// What a multi-select shows holds exactly its names: where there is a
/// name and none holds a `|`, cutting the text at each `|` gives the names
/// back, in their order, none lost and none doubled.
pub proof fn lemma_multi_select_display_is_exact(names: Seq<Seq<char>>)
    requires
        names.len() > 0,
        forall|i: int| 0 <= i < names.len() ==> !(#[trigger] names[i]).contains('|'),
    ensures
        split(PropertyValueView::MultiSelect(names).display(), '|') == names,
{
    reveal_strlit("|");
    assert("|"@ =~= seq!['|']);
    lemma_split_inverts_join(names, '|');
}

} // verus!
