//! A structural model of the JSON values this crate puts on the wire.
//!
//! Serialization builds values of this type; the surrounding (unverified)
//! I/O layer turns them into bytes with an ordinary JSON encoder. Numbers
//! with two decimal places are carried scaled by one hundred (`Centi`), so
//! the model stays free of floating point; JSON text that the crate carries
//! through without interpreting it travels as `Raw`.

use vstd::prelude::*;

verus! {

/// A JSON value about to be put on the wire.
#[derive(Debug, PartialEq)]
pub enum JsonValue {
    /// The JSON `null`.
    Null,
    /// A JSON boolean.
    Bool(bool),
    /// A signed JSON integer.
    Int(i64),
    /// An unsigned JSON integer.
    UInt(u64),
    /// A JSON number with two decimal places, stored multiplied by 100:
    /// `Centi(70)` stands for `0.7`.
    Centi(i64),
    /// A JSON string.
    Str(String),
    /// A JSON array.
    Arr(Vec<JsonValue>),
    /// A JSON object, as an ordered list of fields.
    Obj(Vec<(String, JsonValue)>),
    /// Already-encoded JSON text, embedded as it stands.
    Raw(String),
}

/// The mathematical value of a [`JsonValue`].
#[verifier::ext_equal]
pub enum JsonView {
    Null,
    Bool(bool),
    Int(i64),
    UInt(u64),
    Centi(i64),
    Str(Seq<char>),
    Arr(Seq<JsonView>),
    Obj(Seq<(Seq<char>, JsonView)>),
    Raw(Seq<char>),
}

/// The view of a JSON value, recursively.
pub open spec fn json_view(v: JsonValue) -> JsonView
    decreases v, 0int,
    via json_view_decreases
{
    match v {
        JsonValue::Null => JsonView::Null,
        JsonValue::Bool(b) => JsonView::Bool(b),
        JsonValue::Int(n) => JsonView::Int(n),
        JsonValue::UInt(n) => JsonView::UInt(n),
        JsonValue::Centi(n) => JsonView::Centi(n),
        JsonValue::Str(s) => JsonView::Str(s@),
        JsonValue::Arr(items) => JsonView::Arr(json_view_seq(items@, 0)),
        JsonValue::Obj(fields) => JsonView::Obj(json_view_fields(fields@, 0)),
        JsonValue::Raw(s) => JsonView::Raw(s@),
    }
}

/// The views of `items[i..]`.
pub open spec fn json_view_seq(items: Seq<JsonValue>, i: int) -> Seq<JsonView>
    decreases items, items.len() - i,
    via json_view_seq_decreases
{
    if i < 0 || i >= items.len() {
        Seq::empty()
    } else {
        seq![json_view(items[i])] + json_view_seq(items, i + 1)
    }
}

/// The views of the fields `fields[i..]`, names paired with values.
pub open spec fn json_view_fields(fields: Seq<(String, JsonValue)>, i: int) -> Seq<
    (Seq<char>, JsonView),
>
    decreases fields, fields.len() - i,
    via json_view_fields_decreases
{
    if i < 0 || i >= fields.len() {
        Seq::empty()
    } else {
        seq![(fields[i].0@, json_view(fields[i].1))] + json_view_fields(fields, i + 1)
    }
}

#[via_fn]
proof fn json_view_decreases(v: JsonValue) {
    broadcast use vstd::std_specs::vec::axiom_vec_decreases_to_view;

    match v {
        JsonValue::Arr(items) => {
            assert(decreases_to!(v => items));
            assert(decreases_to!(items => items@));
        },
        JsonValue::Obj(fields) => {
            assert(decreases_to!(v => fields));
            assert(decreases_to!(fields => fields@));
        },
        _ => {},
    }
}

#[via_fn]
proof fn json_view_seq_decreases(items: Seq<JsonValue>, i: int) {
    broadcast use vstd::seq::axiom_seq_index_decreases;

    if 0 <= i < items.len() {
        assert(decreases_to!(items => items[i]));
    }
}

#[via_fn]
proof fn json_view_fields_decreases(fields: Seq<(String, JsonValue)>, i: int) {
    broadcast use vstd::seq::axiom_seq_index_decreases;

    if 0 <= i < fields.len() {
        assert(decreases_to!(fields => fields[i]));
        assert(decreases_to!(fields[i] => fields[i].1));
    }
}

impl View for JsonValue {
    type V = JsonView;

    open spec fn view(&self) -> JsonView {
        json_view(*self)
    }
}

impl DeepView for JsonValue {
    type V = JsonView;

    open spec fn deep_view(&self) -> JsonView {
        json_view(*self)
    }
}

/// The element views of `json_view_seq(items, i)`, pointwise.
pub proof fn lemma_json_view_seq(items: Seq<JsonValue>, i: int)
    requires
        0 <= i <= items.len(),
    ensures
        json_view_seq(items, i).len() == items.len() - i,
        forall|j: int|
            i <= j < items.len() ==> json_view_seq(items, i)[j - i] == json_view(items[j]),
    decreases items.len() - i,
{
    if i < items.len() {
        lemma_json_view_seq(items, i + 1);
    }
}

/// The element views of a whole array's contents, pointwise.
pub proof fn lemma_json_view_seq_all(items: Seq<JsonValue>)
    ensures
        json_view_seq(items, 0).len() == items.len(),
        forall|j: int|
            0 <= j < items.len() ==> #[trigger] json_view_seq(items, 0)[j] == json_view(items[j]),
{
    lemma_json_view_seq(items, 0);
    assert forall|j: int|
        0 <= j < items.len() implies #[trigger] json_view_seq(items, 0)[j] == json_view(
        items[j],
    ) by {
        assert(json_view_seq(items, 0)[j - 0] == json_view(items[j]));
    }
}

/// The element views of `json_view_fields(fields, i)`, pointwise.
pub proof fn lemma_json_view_fields(fields: Seq<(String, JsonValue)>, i: int)
    requires
        0 <= i <= fields.len(),
    ensures
        json_view_fields(fields, i).len() == fields.len() - i,
        forall|j: int|
            i <= j < fields.len() ==> json_view_fields(fields, i)[j - i] == (
                fields[j].0@,
                json_view(fields[j].1),
            ),
    decreases fields.len() - i,
{
    if i < fields.len() {
        lemma_json_view_fields(fields, i + 1);
    }
}

/// The field views of a whole object's fields, pointwise.
pub proof fn lemma_json_view_fields_all(fields: Seq<(String, JsonValue)>)
    ensures
        json_view_fields(fields, 0).len() == fields.len(),
        forall|j: int|
            0 <= j < fields.len() ==> #[trigger] json_view_fields(fields, 0)[j] == (
                fields[j].0@,
                json_view(fields[j].1),
            ),
{
    lemma_json_view_fields(fields, 0);
    assert forall|j: int|
        0 <= j < fields.len() implies #[trigger] json_view_fields(fields, 0)[j] == (
        fields[j].0@,
        json_view(fields[j].1),
    ) by {
        assert(json_view_fields(fields, 0)[j - 0] == (fields[j].0@, json_view(fields[j].1)));
    }
}

} // verus!
