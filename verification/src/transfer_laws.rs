//! What values are written as, made into and read from on their way over a boundary.

use crate::bigint::parse_decimal;
use crate::conversion::{items_to_python, to_python, PyView};
use crate::double::Double;
use crate::functions::FunctionsView;
use crate::js_value::{lemma_position, lookup, JsView};
use crate::limit_laws::{
    all_have_counterparts, all_nest_within, is_bounded, law_arguments_are_converted_one_by_one,
    lemma_entering, lemma_python_items, lemma_slots, levels_left, python_costs, with_more,
};
use crate::limits::{word_bytes, LimitState};
use crate::text::int_decimal;
use crate::v8_export::{entry_plans_of, plan_of, plans_of, PlanView};
use crate::wire::{decode, encode, encode_entries, encode_items, finish_map, WireFault, WireView};
use vstd::prelude::*;

verus! {

/// A value that has a form of its own is written in that form and read from it.
pub proof fn law_plain_values_are_written_as_they_are(
    flag: bool,
    whole: i64,
    bits: u64,
    text: Seq<char>,
    bytes: Seq<u8>,
)
    ensures
        encode(JsView::Null) == Ok::<_, WireFault>(WireView::Absent),
        encode(JsView::Bool(flag)) == Ok::<_, WireFault>(WireView::Bool(flag)),
        encode(JsView::Int(whole)) == Ok::<_, WireFault>(WireView::Signed(whole)),
        encode(JsView::Float(bits)) == Ok::<_, WireFault>(WireView::Number(bits)),
        encode(JsView::String(text)) == Ok::<_, WireFault>(WireView::Text(text)),
        encode(JsView::Bytes(bytes)) == Ok::<_, WireFault>(WireView::Bytes(bytes)),
        decode(WireView::Unit) == Ok::<_, WireFault>(JsView::Undefined),
        decode(WireView::Absent) == Ok::<_, WireFault>(JsView::Null),
        decode(WireView::Bool(flag)) == Ok::<_, WireFault>(JsView::Bool(flag)),
        decode(WireView::Signed(whole)) == Ok::<_, WireFault>(JsView::Int(whole)),
        decode(WireView::Number(bits)) == Ok::<_, WireFault>(JsView::Float(bits)),
        decode(WireView::Text(text)) == Ok::<_, WireFault>(JsView::String(text)),
        decode(WireView::Bytes(bytes)) == Ok::<_, WireFault>(JsView::Bytes(bytes)),
        whole >= 0 ==> decode(WireView::Unsigned(whole as u64)) == Ok::<_, WireFault>(
            JsView::Int(whole),
        ),
        bits > i64::MAX ==> decode(WireView::Unsigned(bits)) is Ok && decode(
            WireView::Unsigned(bits),
        )->Ok_0 is Float,
{
}

/// The written form is a map that names this type, and nothing but the payload besides.
pub open spec fn names_type(wire: WireView, tag: Seq<char>, key: Seq<char>, payload: WireView) -> bool {
    &&& wire is Entries
    &&& wire->Entries_0.len() == 2
    &&& wire->Entries_0[0] == ("__pydeno_type"@, WireView::Text(tag))
    &&& wire->Entries_0[1] == (key, payload)
}

proof fn lemma_tags()
    ensures
        "Date"@ != "Set"@,
        "Date"@ != "BigInt"@,
        "Date"@ != "JsStream"@,
        "Date"@ != "PyStream"@,
        "Date"@ != "Undefined"@,
        "Set"@ != "BigInt"@,
        "Set"@ != "JsStream"@,
        "Set"@ != "PyStream"@,
        "Set"@ != "Undefined"@,
        "BigInt"@ != "JsStream"@,
        "BigInt"@ != "PyStream"@,
        "BigInt"@ != "Undefined"@,
        "JsStream"@ != "PyStream"@,
        "JsStream"@ != "Undefined"@,
        "PyStream"@ != "Undefined"@,
{
    reveal_strlit("Date");
    reveal_strlit("Set");
    reveal_strlit("BigInt");
    reveal_strlit("JsStream");
    reveal_strlit("PyStream");
    reveal_strlit("Undefined");
    assert("Date"@.len() == 4);
    assert("Set"@.len() == 3);
    assert("BigInt"@.len() == 6);
    assert("JsStream"@.len() == 8);
    assert("PyStream"@.len() == 8);
    assert("Undefined"@.len() == 9);
    assert("JsStream"@[0] != "PyStream"@[0]);
}

/// A value without a form of its own is written with the name of its type and its
/// payload: a date with its milliseconds, a big integer with its decimal text, a set with
/// its items, a stream with its id.
pub proof fn law_other_values_are_written_with_their_type(
    ms: i64,
    i: int,
    id: u32,
    items: Seq<JsView>,
)
    ensures
        encode(JsView::Date(ms)) is Ok,
        names_type(encode(JsView::Date(ms))->Ok_0, "Date"@, "epoch_ms"@, WireView::Signed(ms)),
        encode(JsView::BigInt(i)) is Ok,
        names_type(
            encode(JsView::BigInt(i))->Ok_0,
            "BigInt"@,
            "value"@,
            WireView::Text(int_decimal(i)),
        ),
        encode(JsView::JsStream(id)) is Ok,
        names_type(
            encode(JsView::JsStream(id))->Ok_0,
            "JsStream"@,
            "id"@,
            WireView::Unsigned(id as u64),
        ),
        encode(JsView::PyStream(id)) is Ok,
        names_type(
            encode(JsView::PyStream(id))->Ok_0,
            "PyStream"@,
            "id"@,
            WireView::Unsigned(id as u64),
        ),
        encode(JsView::Undefined) is Ok,
        encode(JsView::Undefined)->Ok_0 is Entries,
        encode(JsView::Undefined)->Ok_0->Entries_0 == seq![
            ("__pydeno_type"@, WireView::Text("Undefined"@)),
        ],
        encode(JsView::JsSet(items)) is Ok ==> encode(JsView::Array(items)) is Ok && names_type(
            encode(JsView::JsSet(items))->Ok_0,
            "Set"@,
            "values"@,
            encode(JsView::Array(items))->Ok_0,
        ),
{
    lemma_tags();
}

/// There is a function somewhere in the value.
pub open spec fn holds_function(value: JsView) -> bool
    decreases value,
{
    match value {
        JsView::Array(items) => any_holds_function(items),
        JsView::JsSet(items) => any_holds_function(items),
        JsView::Object(entries) => any_entry_holds_function(entries),
        JsView::Function(_) => true,
        _ => false,
    }
}

pub open spec fn any_holds_function(items: Seq<JsView>) -> bool
    decreases items,
{
    items.len() > 0 && (any_holds_function(items.drop_last()) || holds_function(items.last()))
}

pub open spec fn any_entry_holds_function(entries: Seq<(Seq<char>, JsView)>) -> bool
    decreases entries,
{
    entries.len() > 0 && (any_entry_holds_function(entries.drop_last()) || holds_function(
        entries.last().1,
    ))
}

/// A value can be written exactly if no function is in it; a list keeps the number of its
/// items, and an object the number and the names of its properties.
pub proof fn law_values_without_functions_are_written(value: JsView)
    ensures
        encode(value) is Ok <==> !holds_function(value),
        value is Array && encode(value) is Ok ==> encode(value)->Ok_0 is List && encode(
            value,
        )->Ok_0->List_0.len() == value->Array_0.len(),
        value is Object && encode(value) is Ok ==> encode(value)->Ok_0 is Entries && encode(
            value,
        )->Ok_0->Entries_0.len() == value->Object_0.len() && forall|i: int|
            0 <= i < value->Object_0.len() ==> (#[trigger] encode(value)->Ok_0->Entries_0[i]).0
                == value->Object_0[i].0,
    decreases value,
{
    match value {
        JsView::Array(items) => {
            lemma_items_are_written(items);
        },
        JsView::JsSet(items) => {
            lemma_items_are_written(items);
        },
        JsView::Object(entries) => {
            lemma_entries_are_written(entries);
        },
        _ => {},
    }
}

proof fn lemma_items_are_written(items: Seq<JsView>)
    ensures
        encode_items(items) is Ok <==> !any_holds_function(items),
        encode_items(items) is Ok ==> encode_items(items)->Ok_0.len() == items.len(),
    decreases items,
{
    if items.len() > 0 {
        lemma_items_are_written(items.drop_last());
        law_values_without_functions_are_written(items.last());
    }
}

proof fn lemma_entries_are_written(entries: Seq<(Seq<char>, JsView)>)
    ensures
        encode_entries(entries) is Ok <==> !any_entry_holds_function(entries),
        encode_entries(entries) is Ok ==> encode_entries(entries)->Ok_0.len() == entries.len()
            && forall|i: int|
            0 <= i < entries.len() ==> (#[trigger] encode_entries(entries)->Ok_0[i]).0
                == entries[i].0,
    decreases entries,
{
    if entries.len() > 0 {
        lemma_entries_are_written(entries.drop_last());
        law_values_without_functions_are_written(entries.last().1);
    }
}

/// A map that names a type is read as a value of that type: a date from whole
/// milliseconds, a set from a list, a big integer from a literal or an integer, a stream
/// from its id. A literal or an id that is none makes the reading fail; a date or a set
/// without a payload that fits stays an object.
pub proof fn law_named_types_are_read(
    object: Seq<(Seq<char>, JsView)>,
    ms: i64,
    items: Seq<JsView>,
    text: Seq<char>,
    id: u32,
)
    ensures
        finish_map(object, Some("Undefined"@)) == Ok::<_, WireFault>(JsView::Undefined),
        lookup(object, "epoch_ms"@) == Some(JsView::Int(ms)) ==> finish_map(object, Some("Date"@))
            == Ok::<_, WireFault>(JsView::Date(ms)),
        lookup(object, "epoch_ms"@) is None ==> finish_map(object, Some("Date"@)) is Ok
            && finish_map(object, Some("Date"@))->Ok_0 is Object,
        lookup(object, "values"@) == Some(JsView::Array(items)) ==> finish_map(
            object,
            Some("Set"@),
        ) == Ok::<_, WireFault>(JsView::JsSet(items)),
        lookup(object, "values"@) is None ==> finish_map(object, Some("Set"@)) is Ok
            && finish_map(object, Some("Set"@))->Ok_0 is Object,
        lookup(object, "value"@) == Some(JsView::Int(ms)) ==> finish_map(object, Some("BigInt"@))
            == Ok::<_, WireFault>(JsView::BigInt(ms as int)),
        lookup(object, "value"@) == Some(JsView::String(text)) && parse_decimal(text) is Some
            ==> finish_map(object, Some("BigInt"@)) == Ok::<_, WireFault>(
            JsView::BigInt(parse_decimal(text)->0),
        ),
        lookup(object, "value"@) == Some(JsView::String(text)) && parse_decimal(text) is None
            ==> finish_map(object, Some("BigInt"@)) is Err,
        lookup(object, "id"@) == Some(JsView::Int(id as i64)) ==> finish_map(
            object,
            Some("JsStream"@),
        ) == Ok::<_, WireFault>(JsView::JsStream(id)) && finish_map(object, Some("PyStream"@))
            == Ok::<_, WireFault>(JsView::PyStream(id)),
        lookup(object, "id"@) == Some(JsView::String(text)) ==> finish_map(
            object,
            Some("JsStream"@),
        ) is Err && finish_map(object, Some("PyStream"@)) is Err,
        finish_map(object, None) == Ok::<_, WireFault>(JsView::Object(object)),
{
    lemma_tags();
}

/// A date whose milliseconds come as a number has its fractional part dropped, and a
/// number that is none stays an object; a stream's id in a number is read in the same
/// way, and refused where it is below zero.
pub proof fn law_named_types_are_read_from_numbers(
    object: Seq<(Seq<char>, JsView)>,
    bits: u64,
)
    ensures
        ({
            let d = Double { bits };
            &&& lookup(object, "epoch_ms"@) == Some(JsView::Float(bits)) && d.finite() && i64::MIN
                <= d.trunc() <= i64::MAX ==> finish_map(object, Some("Date"@)) == Ok::<
                _,
                WireFault,
            >(JsView::Date(d.trunc() as i64))
            &&& lookup(object, "epoch_ms"@) == Some(JsView::Float(bits)) && !d.finite()
                ==> finish_map(object, Some("Date"@)) is Ok && finish_map(
                object,
                Some("Date"@),
            )->Ok_0 is Object
            &&& lookup(object, "id"@) == Some(JsView::Float(bits)) && d.finite()
                && !d.below_zero() && 0 <= d.trunc() <= u32::MAX ==> finish_map(
                object,
                Some("JsStream"@),
            ) == Ok::<_, WireFault>(JsView::JsStream(d.trunc() as u32))
            &&& lookup(object, "id"@) == Some(JsView::Float(bits)) && (!d.finite()
                || d.below_zero()) ==> finish_map(object, Some("JsStream"@)) is Err && finish_map(
                object,
                Some("PyStream"@),
            ) is Err
        }),
{
    lemma_tags();
}

/// Every function in the value is known, and no stream of JavaScript is in it.
pub open spec fn can_be_made(value: JsView, functions: FunctionsView) -> bool
    decreases value,
{
    match value {
        JsView::Array(items) => all_can_be_made(items, functions),
        JsView::JsSet(items) => all_can_be_made(items, functions),
        JsView::Object(entries) => all_entries_can_be_made(entries, functions),
        JsView::Function(id) => functions.stored.contains_key(id),
        JsView::JsStream(_) => false,
        _ => true,
    }
}

pub open spec fn all_can_be_made(items: Seq<JsView>, functions: FunctionsView) -> bool
    decreases items,
{
    items.len() == 0 || (all_can_be_made(items.drop_last(), functions) && can_be_made(
        items.last(),
        functions,
    ))
}

pub open spec fn all_entries_can_be_made(
    entries: Seq<(Seq<char>, JsView)>,
    functions: FunctionsView,
) -> bool
    decreases entries,
{
    entries.len() == 0 || (all_entries_can_be_made(entries.drop_last(), functions) && can_be_made(
        entries.last().1,
        functions,
    ))
}

/// A value is made in the engine exactly if its functions are known and no stream of
/// JavaScript is in it.
pub proof fn law_values_are_made_in_the_engine(value: JsView, functions: FunctionsView)
    ensures
        plan_of(value, functions) is Ok <==> can_be_made(value, functions),
    decreases value,
{
    match value {
        JsView::Array(items) => {
            lemma_items_are_made(items, functions);
        },
        JsView::JsSet(items) => {
            lemma_items_are_made(items, functions);
        },
        JsView::Object(entries) => {
            lemma_entries_are_made(entries, functions);
        },
        _ => {},
    }
}

proof fn lemma_items_are_made(items: Seq<JsView>, functions: FunctionsView)
    ensures
        plans_of(items, functions) is Ok <==> all_can_be_made(items, functions),
    decreases items,
{
    if items.len() > 0 {
        lemma_items_are_made(items.drop_last(), functions);
        law_values_are_made_in_the_engine(items.last(), functions);
    }
}

proof fn lemma_entries_are_made(entries: Seq<(Seq<char>, JsView)>, functions: FunctionsView)
    ensures
        entry_plans_of(entries, functions) is Ok <==> all_entries_can_be_made(entries, functions),
    decreases entries,
{
    if entries.len() > 0 {
        lemma_entries_are_made(entries.drop_last(), functions);
        law_values_are_made_in_the_engine(entries.last().1, functions);
    }
}

/// The arguments of a call are made one by one, in order.
pub proof fn law_arguments_are_made_one_by_one(
    items: Seq<JsView>,
    functions: FunctionsView,
    i: int,
)
    requires
        plans_of(items, functions) is Ok,
    ensures
        plans_of(items, functions)->Ok_0.len() == items.len(),
        0 <= i < items.len() ==> plan_of(items[i], functions) == Ok::<
            _,
            crate::error::ErrorView,
        >(plans_of(items, functions)->Ok_0[i]),
    decreases items.len(),
{
    if items.len() > 0 {
        law_arguments_are_made_one_by_one(items.drop_last(), functions, i);
    }
}

/// A function that went to Python goes back as the function that was stored, and a stream
/// of Python by its id; data is made as it is.
pub proof fn law_handles_go_back_as_they_were(
    functions: FunctionsView,
    id: u32,
    flag: bool,
    i: int,
    bits: u64,
    text: Seq<char>,
    bytes: Seq<u8>,
)
    ensures
        functions.stored.contains_key(id) ==> plan_of(JsView::Function(id), functions) == Ok::<
            _,
            crate::error::ErrorView,
        >(PlanView::Function(functions.stored[id].function)),
        plan_of(JsView::PyStream(id), functions) == Ok::<_, crate::error::ErrorView>(
            PlanView::PyStream(id),
        ),
        plan_of(JsView::BigInt(i), functions) == Ok::<_, crate::error::ErrorView>(
            PlanView::BigInt(i),
        ),
        plan_of(JsView::Undefined, functions) == Ok::<_, crate::error::ErrorView>(
            PlanView::Undefined,
        ),
        plan_of(JsView::Null, functions) == Ok::<_, crate::error::ErrorView>(PlanView::Null),
        plan_of(JsView::Bool(flag), functions) == Ok::<_, crate::error::ErrorView>(
            PlanView::Boolean(flag),
        ),
        plan_of(JsView::Float(bits), functions) == Ok::<_, crate::error::ErrorView>(
            PlanView::Number(bits),
        ),
        plan_of(JsView::String(text), functions) == Ok::<_, crate::error::ErrorView>(
            PlanView::Text(text),
        ),
        plan_of(JsView::Bytes(bytes), functions) == Ok::<_, crate::error::ErrorView>(
            PlanView::Bytes(bytes),
        ),
{
}

/// What was converted turned out to be this.
pub open spec fn comes_out(made: Result<PyView, Seq<char>>, value: PyView) -> bool {
    made is Ok ==> made->Ok_0 == value
}

/// Functions and streams become proxies of the same id, where there is a handle to call
/// them with, and are refused where there is none; the placeholder of a Python stream
/// never comes back.
pub proof fn law_handles_become_proxies(id: u32, state: LimitState)
    requires
        is_bounded(state),
    ensures
        comes_out(to_python(JsView::Function(id), true, state).0, PyView::Function(id)),
        comes_out(to_python(JsView::JsStream(id), true, state).0, PyView::Stream(id)),
        to_python(JsView::Function(id), false, state).0 is Err,
        to_python(JsView::JsStream(id), false, state).0 is Err,
        to_python(JsView::PyStream(id), true, state).0 is Err,
        to_python(JsView::PyStream(id), false, state).0 is Err,
{
}

/// A level is left, and as many bytes as an object with these properties takes before
/// anything in it.
pub open spec fn has_room_for(state: LimitState, entries: Seq<(Seq<char>, JsView)>) -> bool {
    levels_left(state) > 0 && state.bytes + 24 + entries.len() * (word_bytes() * 2)
        <= state.max_bytes
}

/// An object that names a type becomes an object of that type in Python, where there is
/// room for it: `undefined`, a datetime of its milliseconds, an integer of its literal. A
/// payload that is none is refused.
pub proof fn law_named_types_become_their_python_type(
    entries: Seq<(Seq<char>, JsView)>,
    with_handle: bool,
    state: LimitState,
    ms: i64,
    text: Seq<char>,
)
    requires
        is_bounded(state),
    ensures
        ({
            let tag = lookup(entries, "__pydeno_type"@);
            let made = to_python(JsView::Object(entries), with_handle, state).0;
            &&& tag == Some(JsView::String("Undefined"@)) ==> comes_out(made, PyView::Undefined)
                && (made is Ok <==> has_room_for(state, entries))
            &&& tag == Some(JsView::String("Date"@)) && lookup(entries, "epoch_ms"@) == Some(
                JsView::Int(ms),
            ) ==> comes_out(made, PyView::DateTime(ms)) && (made is Ok <==> has_room_for(
                state,
                entries,
            ))
            &&& tag == Some(JsView::String("Date"@)) && lookup(entries, "epoch_ms"@) == Some(
                JsView::String(text),
            ) ==> made is Err
            &&& tag == Some(JsView::String("BigInt"@)) && lookup(entries, "value"@) == Some(
                JsView::String(text),
            ) && parse_decimal(text) is Some ==> comes_out(
                made,
                PyView::BigInt(parse_decimal(text)->0),
            ) && (made is Ok <==> has_room_for(state, entries))
            &&& tag == Some(JsView::String("BigInt"@)) && lookup(entries, "value"@) == Some(
                JsView::String(text),
            ) && parse_decimal(text) is None ==> made is Err
            &&& tag is None && made is Ok ==> made->Ok_0 is Dict
        }),
{
    lemma_tags();
    lemma_entering(state);
    if levels_left(state) > 0 {
        lemma_slots(state.entered(), 24, entries.len(), word_bytes() * 2);
    }
}

/// A datetime whose milliseconds come as a number has their fractional part dropped; a
/// number that is none is refused.
pub proof fn law_named_dates_are_made_of_numbers(
    entries: Seq<(Seq<char>, JsView)>,
    with_handle: bool,
    state: LimitState,
    bits: u64,
)
    requires
        is_bounded(state),
        lookup(entries, "__pydeno_type"@) == Some(JsView::String("Date"@)),
        lookup(entries, "epoch_ms"@) == Some(JsView::Float(bits)),
    ensures
        ({
            let d = Double { bits };
            let made = to_python(JsView::Object(entries), with_handle, state).0;
            &&& made is Ok <==> d.finite() && has_room_for(state, entries)
            &&& made is Ok && i64::MIN <= d.trunc() <= i64::MAX ==> made->Ok_0 == PyView::DateTime(
                d.trunc() as i64,
            )
        }),
{
    lemma_tags();
    lemma_entering(state);
    if levels_left(state) > 0 {
        lemma_slots(state.entered(), 24, entries.len(), word_bytes() * 2);
    }
}

/// An object that names itself a set becomes a set of its values, each converted in
/// order, where there is room for them.
pub proof fn law_named_sets_become_sets(
    entries: Seq<(Seq<char>, JsView)>,
    state: LimitState,
    items: Seq<JsView>,
)
    requires
        is_bounded(state),
        lookup(entries, "__pydeno_type"@) == Some(JsView::String("Set"@)),
        lookup(entries, "values"@) == Some(JsView::Array(items)),
        all_have_counterparts(items),
    ensures
        ({
            let made = to_python(JsView::Object(entries), true, state).0;
            let head = 24 + entries.len() * (word_bytes() * 2);
            &&& made is Ok <==> levels_left(state) > 0 && all_nest_within(
                items,
                (levels_left(state) - 1) as nat,
            ) && state.bytes + head + python_costs(items) <= state.max_bytes
            &&& made is Ok ==> made->Ok_0 is PySet && made->Ok_0->PySet_0.len() == items.len()
        }),
{
    lemma_tags();
    lemma_entering(state);
    let entered = state.entered();
    if levels_left(state) > 0 {
        lemma_slots(entered, 24, entries.len(), word_bytes() * 2);
    }
    lemma_position(entries, "values"@);
    let head = 24 + entries.len() * (word_bytes() * 2);
    if levels_left(state) > 0 && entered.bytes + head <= entered.max_bytes {
        let counted = with_more(entered, head);
        lemma_python_items(items, counted);
        if items_to_python(items, true, counted).0 is Ok {
            law_arguments_are_converted_one_by_one(items, true, counted, 0);
        }
    }
}

} // verus!
