//! What an engine value is read as.

use crate::double::Double;
use crate::error::ErrorView;
use crate::functions::StoredFunction;
use crate::js_value::{lemma_position, JsView};
use crate::limit_laws::{is_bounded, lemma_entering, levels_left};
use crate::v8_import::{
    accept, advance, kind_of, ImportState, V8Container, V8EventView, V8Kind, V8ReadingView,
    V8StepView, V8Traits,
};
use vstd::prelude::*;

verus! {

/// The value is of none of the types that come before the engine's objects.
pub open spec fn is_no_primitive(t: V8Traits) -> bool {
    !t.is_undefined && !t.is_null && !t.is_boolean && !t.is_number && !t.is_big_int && !t.is_string
}

/// The value is an object of a type of its own.
pub open spec fn is_of_a_type(t: V8Traits) -> bool {
    t.is_function || t.is_symbol || t.is_uint8_array || t.is_array_buffer || t.is_array || t.is_set
        || t.is_date
}

/// A value is never read as what it is not; and only a value that is nothing else is
/// read as a plain object, or by its text.
pub proof fn law_values_are_read_as_what_they_are(t: V8Traits)
    ensures
        kind_of(t) == V8Kind::Undefined ==> t.is_undefined,
        kind_of(t) == V8Kind::Null ==> t.is_null,
        kind_of(t) == V8Kind::Boolean ==> t.is_boolean,
        kind_of(t) == V8Kind::Number ==> t.is_number,
        kind_of(t) == V8Kind::BigInt ==> t.is_big_int,
        kind_of(t) == V8Kind::Text ==> t.is_string,
        kind_of(t) == V8Kind::Function ==> t.is_function,
        kind_of(t) == V8Kind::Symbol ==> t.is_symbol,
        kind_of(t) == V8Kind::ByteArray ==> t.is_uint8_array,
        kind_of(t) == V8Kind::ArrayBuffer ==> t.is_array_buffer,
        kind_of(t) == V8Kind::Array ==> t.is_array,
        kind_of(t) == V8Kind::JsSet ==> t.is_set,
        kind_of(t) == V8Kind::Date ==> t.is_date,
        kind_of(t) == V8Kind::Object <==> t.is_object && is_no_primitive(t) && !is_of_a_type(t),
        kind_of(t) == V8Kind::Other <==> !t.is_object && is_no_primitive(t) && !is_of_a_type(t),
{
}

/// A date, a set, an array, a buffer, a function and a symbol are each read as that,
/// although the engine says of them that they are objects too: the type that the value
/// has counts, whether or not it is an object.
pub proof fn law_objects_of_a_type_are_read_as_that_type(t: V8Traits)
    requires
        is_no_primitive(t),
    ensures
        t.is_function ==> kind_of(t) == V8Kind::Function,
        t.is_symbol && !t.is_function ==> kind_of(t) == V8Kind::Symbol,
        t.is_uint8_array && !t.is_function && !t.is_symbol ==> kind_of(t) == V8Kind::ByteArray,
        t.is_array_buffer && !t.is_function && !t.is_symbol && !t.is_uint8_array ==> kind_of(t)
            == V8Kind::ArrayBuffer,
        t.is_array && !t.is_function && !t.is_symbol && !t.is_uint8_array && !t.is_array_buffer
            ==> kind_of(t) == V8Kind::Array,
        t.is_set && !t.is_function && !t.is_symbol && !t.is_uint8_array && !t.is_array_buffer
            && !t.is_array ==> kind_of(t) == V8Kind::JsSet,
        t.is_date && !t.is_function && !t.is_symbol && !t.is_uint8_array && !t.is_array_buffer
            && !t.is_array && !t.is_set ==> kind_of(t) == V8Kind::Date,
        kind_of(t) == kind_of(V8Traits { is_object: !t.is_object, ..t }) <==> is_of_a_type(t),
{
}

/// A primitive value is read as that, before anything else is asked of it.
pub proof fn law_primitives_are_read_first(t: V8Traits)
    ensures
        t.is_undefined ==> kind_of(t) == V8Kind::Undefined,
        t.is_null && !t.is_undefined ==> kind_of(t) == V8Kind::Null,
        t.is_boolean && !t.is_undefined && !t.is_null ==> kind_of(t) == V8Kind::Boolean,
        t.is_number && !t.is_undefined && !t.is_null && !t.is_boolean ==> kind_of(t)
            == V8Kind::Number,
        t.is_big_int && !t.is_undefined && !t.is_null && !t.is_boolean && !t.is_number ==> kind_of(
            t,
        ) == V8Kind::BigInt,
        t.is_string && !t.is_undefined && !t.is_null && !t.is_boolean && !t.is_number
            && !t.is_big_int ==> kind_of(t) == V8Kind::Text,
{
}

/// Nothing is being read, and what was counted is within the limits.
pub open spec fn is_at_rest(state: ImportState) -> bool {
    state.frames.len() == 0 && is_bounded(state.limits) && levels_left(state.limits) > 0
}

/// What was read turned out to be this.
pub open spec fn turns_out(step: V8StepView, value: JsView) -> bool {
    step is Done ==> step->Done_0 == value
}

/// A value that holds no others is taken over as it is.
pub proof fn law_simple_values_are_kept(
    state: ImportState,
    flag: bool,
    whole: i64,
    text: Seq<char>,
    shown: Option<Seq<char>>,
    receiver: Option<u64>,
)
    requires
        is_at_rest(state),
    ensures
        turns_out(accept(state, V8ReadingView::Undefined, receiver).1, JsView::Undefined),
        turns_out(accept(state, V8ReadingView::Null, receiver).1, JsView::Null),
        turns_out(accept(state, V8ReadingView::Boolean(flag), receiver).1, JsView::Bool(flag)),
        turns_out(accept(state, V8ReadingView::Text(text), receiver).1, JsView::String(text)),
        turns_out(
            accept(state, V8ReadingView::BigInt(whole, true, shown), receiver).1,
            JsView::Int(whole),
        ),
        turns_out(accept(state, V8ReadingView::Other(Some(text)), receiver).1, JsView::String(text)),
{
}

/// A number is taken over without loss: as an integer where it is exactly one, and bit
/// for bit otherwise.
pub proof fn law_numbers_are_kept(state: ImportState, bits: u64, receiver: Option<u64>)
    requires
        is_at_rest(state),
    ensures
        ({
            let step = accept(state, V8ReadingView::Number(bits), receiver).1;
            step is Done ==> match step->Done_0 {
                JsView::Int(i) => (Double { bits }).exact_i64() && (Double { bits }).trunc() == i,
                JsView::Float(kept) => !(Double { bits }).exact_i64() && kept == bits,
                _ => false,
            }
        }),
{
}

/// A date is taken over as its epoch milliseconds, rounded to the nearest; one that is
/// no number, or past what can be counted, is refused.
pub proof fn law_dates_are_kept(state: ImportState, bits: u64, receiver: Option<u64>)
    requires
        is_at_rest(state),
    ensures
        ({
            let d = Double { bits };
            let step = accept(state, V8ReadingView::Date(bits), receiver).1;
            &&& !d.finite() ==> step is Failed
            &&& !d.within_i64_span() ==> step is Failed
            &&& step is Done ==> step->Done_0 is Date && (i64::MIN <= d.rounded() <= i64::MAX
                ==> step->Done_0->Date_0 == d.rounded())
        }),
{
}

/// A function is kept, with the object it was read from, under the id that Python is
/// told.
pub proof fn law_functions_are_kept(state: ImportState, slot: u64, receiver: Option<u64>)
    requires
        is_at_rest(state),
    ensures
        ({
            let (after, step) = accept(state, V8ReadingView::Function(slot), receiver);
            step is Done ==> {
                &&& step->Done_0 is Function
                &&& after.functions.stored.contains_key(step->Done_0->Function_0)
                &&& after.functions.stored[step->Done_0->Function_0] == (StoredFunction {
                    function: slot,
                    receiver,
                })
                &&& step->Done_0->Function_0 == state.functions.next_id
                &&& after.functions.next_id != state.functions.next_id
                &&& after.streams == state.streams
                &&& forall|id: u32|
                    id != state.functions.next_id && state.functions.stored.contains_key(id)
                        ==> after.functions.stored.contains_key(id)
                        && #[trigger] after.functions.stored[id] == state.functions.stored[id]
            }
        }),
{
}

/// A stream is kept, unread, under the id that Python is told.
pub proof fn law_streams_are_kept(state: ImportState, slot: u64, receiver: Option<u64>)
    requires
        is_at_rest(state),
    ensures
        ({
            let (after, step) = accept(state, V8ReadingView::Stream(slot), receiver);
            step is Done ==> {
                &&& step->Done_0 is JsStream
                &&& after.streams.entries.contains_key(step->Done_0->JsStream_0)
                &&& after.streams.entries[step->Done_0->JsStream_0].stream == slot
                &&& after.streams.entries[step->Done_0->JsStream_0].reader is None
                &&& step->Done_0->JsStream_0 == state.streams.next_id
                &&& after.streams.next_id != state.streams.next_id
                &&& after.functions == state.functions
            }
        }),
{
}

/// What cannot be read, or has no counterpart, is refused.
pub proof fn law_unreadable_values_are_refused(
    state: ImportState,
    text: Seq<char>,
    identity: usize,
    slot: u64,
    low: i64,
    receiver: Option<u64>,
)
    requires
        is_at_rest(state),
    ensures
        accept(state, V8ReadingView::Symbol, receiver).1 is Failed,
        accept(state, V8ReadingView::Failed(text), receiver).1 == V8StepView::Failed(
            ErrorView::Internal(text),
        ),
        accept(state, V8ReadingView::Other(None), receiver).1 is Failed,
        accept(state, V8ReadingView::Object(identity, slot, None), receiver).1 is Failed,
        accept(state, V8ReadingView::BigInt(low, false, None), receiver).1 is Failed,
{
    lemma_entering(state.limits);
}

/// Of a container that holds anything, its parts are read from the first on; of a
/// buffer, its bytes, which are the value.
pub proof fn law_containers_are_read_from_the_first_part_on(
    state: ImportState,
    identity: usize,
    slot: u64,
    length: usize,
    bytes: Seq<u8>,
    receiver: Option<u64>,
)
    requires
        is_at_rest(state),
        length > 0,
    ensures
        ({
            let (after, step) = accept(state, V8ReadingView::Array(identity, length), receiver);
            !(step is Failed) ==> step == V8StepView::ReadElement(0) && after.frames.len() == 1
                && after.frames[0].kind == V8Container::Array && after.frames[0].length == length
        }),
        ({
            let (after, step) = accept(state, V8ReadingView::JsSet(identity, length), receiver);
            !(step is Failed) ==> step == V8StepView::ReadElement(0) && after.frames.len() == 1
                && after.frames[0].kind == V8Container::JsSet && after.frames[0].length == length
        }),
        ({
            let (after, step) = accept(
                state,
                V8ReadingView::Object(identity, slot, Some(length)),
                receiver,
            );
            step == V8StepView::ReadProperty(0) && after.frames.len() == 1 && after.frames[0].kind
                == V8Container::Object && after.frames[0].length == length && after.frames[0].slot
                == slot
        }),
        ({
            let (after, step) = accept(state, V8ReadingView::Buffer(length), receiver);
            !(step is Failed) ==> step == V8StepView::ReadBytes(length as int) && advance(
                after,
                V8EventView::Bytes(bytes),
            ).1 == V8StepView::Done(JsView::Bytes(bytes))
        }),
{
    lemma_entering(state.limits);
    let (after, step) = accept(state, V8ReadingView::Buffer(length), receiver);
    if !(step is Failed) {
        assert(after.frames.drop_last() =~= state.frames);
    }
}

/// A function that is read as a property keeps the object as its receiver; one that is
/// read as an element has none.
pub proof fn law_methods_keep_their_object(state: ImportState, key: Seq<char>, slot: u64)
    requires
        state.frames.len() > 0,
        is_bounded(state.limits),
    ensures
        ({
            let (after, step) = advance(
                state,
                V8EventView::Property(key, V8ReadingView::Function(slot)),
            );
            !(step is Failed) ==> after.functions.stored[state.functions.next_id] == (
            StoredFunction { function: slot, receiver: Some(state.frames.last().slot) })
        }),
        ({
            let (after, step) = advance(
                state,
                V8EventView::Element(V8ReadingView::Function(slot)),
            );
            !(step is Failed) ==> after.functions.stored[state.functions.next_id] == (
            StoredFunction { function: slot, receiver: None })
        }),
{
}

/// A part that could not be had makes the whole fail.
pub proof fn law_failed_parts_fail_the_whole(state: ImportState, key: Seq<char>, why: Seq<char>)
    requires
        state.frames.len() > 0,
    ensures
        advance(state, V8EventView::FailedElement).1 is Failed,
        advance(state, V8EventView::FailedName).1 is Failed,
        advance(state, V8EventView::FailedKey).1 is Failed,
        advance(state, V8EventView::FailedProperty(key)).1 is Failed,
        advance(state, V8EventView::Element(V8ReadingView::Failed(why))).1 is Failed,
        advance(state, V8EventView::Property(key, V8ReadingView::Failed(why))).1 is Failed,
{
}

/// The parts of a container are read one after the other, each kept behind the ones
/// before it, until the last one completes the container.
pub proof fn law_parts_are_read_in_order(state: ImportState, flag: bool, key: Seq<char>)
    requires
        state.frames.len() == 1,
        is_bounded(state.limits),
    ensures
        ({
            let frame = state.frames[0];
            let (after, step) = advance(
                state,
                V8EventView::Element(V8ReadingView::Boolean(flag)),
            );
            let items = frame.items.push(JsView::Bool(flag));
            &&& frame.kind == V8Container::Array || frame.kind == V8Container::JsSet ==> {
                &&& frame.read + 1 < frame.length && !(step is Failed) ==> step
                    == V8StepView::ReadElement((frame.read + 1) as int) && after.frames.len() == 1
                    && after.frames[0].items == items && after.frames[0].read == frame.read + 1
                    && after.frames[0].length == frame.length && after.frames[0].kind == frame.kind
                &&& frame.read + 1 == frame.length && !(step is Failed) ==> step is Done
                    && after.frames.len() == 0 && step->Done_0 == (if frame.kind
                    == V8Container::Array {
                    JsView::Array(items)
                } else {
                    JsView::JsSet(items)
                })
            }
        }),
        ({
            let frame = state.frames[0];
            let (after, step) = advance(
                state,
                V8EventView::Property(key, V8ReadingView::Boolean(flag)),
            );
            frame.kind == V8Container::Object && (forall|i: int|
                0 <= i < frame.entries.len() ==> (#[trigger] frame.entries[i]).0 != key) ==> {
                &&& frame.read + 1 < frame.length && !(step is Failed) ==> step
                    == V8StepView::ReadProperty((frame.read + 1) as int) && after.frames.len() == 1
                    && after.frames[0].entries == frame.entries.push((key, JsView::Bool(flag)))
                    && after.frames[0].read == frame.read + 1 && after.frames[0].slot == frame.slot
                &&& frame.read + 1 == frame.length && !(step is Failed) ==> step
                    == V8StepView::Done(
                    JsView::Object(frame.entries.push((key, JsView::Bool(flag)))),
                ) && after.frames.len() == 0
            }
        }),
{
    let frame = state.frames[0];
    reveal_with_fuel(crate::v8_import::deliver, 3);
    assert(state.frames.drop_last() =~= Seq::empty());
    lemma_position(frame.entries, key);
    let keyed = crate::v8_import::V8FrameView { key, ..frame };
    let frames = state.frames.drop_last().push(keyed);
    assert(frames.drop_last() =~= Seq::empty());
    assert(frames.last() == keyed);
}

} // verus!
