//! What the registries of streams keep, and what is read from a stream.

use crate::error::ErrorView;
use crate::js_value::{
    distinct_keys, lemma_position, lemma_position_is, lookup, position, without, JsView,
};
use crate::object_laws::law_removed_properties_are_gone;
use crate::proxies::{
    source_closed, stream_cancelled, transferred_function, transferred_stream, JsFunction,
    PyStreamSource, StreamSharedState,
};
use crate::stream::{
    chunk_entries, chunk_of, closed_with, lemma_chunk_keys_differ, merged, pulled, ChunkView,
    CloseOutcome, JsStreamsView, PullOutcome, PyStreamsView, StreamStatsSnapshot,
};
use vstd::prelude::*;

verus! {

/// The text ends with the other.
pub open spec fn ends_with(text: Seq<char>, end: Seq<char>) -> bool {
    text.len() >= end.len() && text.subrange(text.len() - end.len(), text.len() as int) == end
}

/// The failure is an internal error that ends with the text.
pub open spec fn fails_saying<T>(result: Result<T, ErrorView>, text: Seq<char>) -> bool {
    result is Err && result->Err_0 is Internal && ends_with(result->Err_0->Internal_0, text)
}

proof fn lemma_ends_with(start: Seq<char>, end: Seq<char>)
    ensures
        ends_with(start + end, end),
{
    assert((start + end).subrange(start.len() as int, (start + end).len() as int) =~= end);
}

/// A stream that was registered is kept, unread and without a reader, under the id that
/// was next, and counted; the others stay as they were.
pub proof fn law_registered_streams_are_kept(streams: JsStreamsView, stream: u64, other: u32)
    ensures
        ({
            let after = streams.registered(stream);
            let id = streams.next_id;
            &&& after.entries.contains_key(id)
            &&& after.entries[id].stream == stream
            &&& after.entries[id].reader is None
            &&& after.entries[id].chunks == 0
            &&& after.entries[id].transferred_bytes == 0
            &&& after.next_id != id
            &&& id < u32::MAX ==> after.next_id == id + 1
            &&& streams.active < u64::MAX ==> after.active == streams.active + 1
            &&& streams.total < u64::MAX ==> after.total == streams.total + 1
            &&& after.bytes == streams.bytes
            &&& other != id ==> after.entries.contains_key(other) == streams.entries.contains_key(
                other,
            ) && after.entries[other] == streams.entries[other]
        }),
{
}

/// A stream that was released is gone, and no longer counted as live; the others stay as
/// they were, and so does everything that was counted. Only a stream that is there can be
/// released.
pub proof fn law_released_streams_are_gone(streams: JsStreamsView, id: u32, other: u32)
    ensures
        ({
            let after = streams.released(id);
            &&& !after.entries.contains_key(id)
            &&& streams.entries.contains_key(id) && streams.active > 0 ==> after.active
                == streams.active - 1
            &&& !streams.entries.contains_key(id) ==> after == streams
            &&& after.total == streams.total && after.bytes == streams.bytes && after.next_id
                == streams.next_id
            &&& other != id ==> after.entries.contains_key(other) == streams.entries.contains_key(
                other,
            ) && after.entries[other] == streams.entries[other]
        }),
        streams.release_result(id) is Ok <==> streams.entries.contains_key(id),
{
}

/// The reader of a stream is kept with the stream, and nothing else changes.
pub proof fn law_readers_are_kept(streams: JsStreamsView, id: u32, reader: u64, other: u32)
    requires
        streams.entries.contains_key(id),
    ensures
        ({
            let after = streams.with_reader(id, reader);
            &&& after.entries.contains_key(id)
            &&& after.entries[id].reader == Some(reader)
            &&& after.entries[id].stream == streams.entries[id].stream
            &&& after.entries[id].chunks == streams.entries[id].chunks
            &&& after.entries[id].transferred_bytes == streams.entries[id].transferred_bytes
            &&& after.active == streams.active && after.total == streams.total && after.bytes
                == streams.bytes && after.next_id == streams.next_id
            &&& other != id ==> after.entries.contains_key(other) == streams.entries.contains_key(
                other,
            ) && after.entries[other] == streams.entries[other]
        }),
{
}

/// Every chunk of a stream is counted; of its bytes, those of a byte buffer and no
/// others.
pub proof fn law_chunks_are_counted(
    streams: JsStreamsView,
    id: u32,
    done: bool,
    bytes: Seq<u8>,
    value: Option<JsView>,
)
    requires
        streams.entries.contains_key(id),
        streams.entries[id].chunks < u64::MAX,
        streams.entries[id].transferred_bytes + bytes.len() <= u64::MAX,
        streams.bytes + bytes.len() <= u64::MAX,
        value is Some ==> !(value->0 is Bytes),
    ensures
        ({
            let after = streams.after_chunk(
                id,
                ChunkView { done, value: Some(JsView::Bytes(bytes)) },
            );
            &&& after.entries[id].chunks == streams.entries[id].chunks + 1
            &&& after.entries[id].transferred_bytes == streams.entries[id].transferred_bytes
                + bytes.len()
            &&& after.bytes == streams.bytes + bytes.len()
            &&& after.entries[id].stream == streams.entries[id].stream
            &&& after.entries[id].reader == streams.entries[id].reader
            &&& after.active == streams.active && after.total == streams.total
        }),
        ({
            let after = streams.after_chunk(id, ChunkView { done, value });
            &&& after.entries[id].chunks == streams.entries[id].chunks + 1
            &&& after.entries[id].transferred_bytes == streams.entries[id].transferred_bytes
            &&& after.bytes == streams.bytes
        }),
{
}

/// An item of a Python iterator is handed on as it is; the end of the iteration is the
/// end of the stream; and a failure says what was raised.
pub proof fn law_pulled_items_are_handed_on(outcome: PullOutcome)
    ensures
        outcome is Value ==> pulled(outcome) is Ok && !pulled(outcome)->Ok_0.done && pulled(
            outcome,
        )->Ok_0.value == Some(outcome->Value_0.view()),
        outcome is Stopped ==> pulled(outcome) is Ok && pulled(outcome)->Ok_0.done && pulled(
            outcome,
        )->Ok_0.value is None,
        outcome is IteratorFailed ==> fails_saying(pulled(outcome), outcome->IteratorFailed_0@),
        outcome is NextFailed ==> fails_saying(pulled(outcome), outcome->NextFailed_0@),
        outcome is AwaitFailed ==> fails_saying(pulled(outcome), outcome->AwaitFailed_0@),
        outcome is ConversionFailed ==> fails_saying(
            pulled(outcome),
            outcome->ConversionFailed_0@,
        ),
        outcome is Errored ==> fails_saying(pulled(outcome), outcome->Errored_0@),
{
    match outcome {
        PullOutcome::IteratorFailed(text) => {
            lemma_ends_with("Failed to get __aiter__: "@, text@);
        },
        PullOutcome::NextFailed(text) => {
            lemma_ends_with("__anext__ failed: "@, text@);
        },
        PullOutcome::AwaitFailed(text) => {
            lemma_ends_with("Failed to await __anext__: "@, text@);
        },
        PullOutcome::ConversionFailed(text) => {
            lemma_ends_with("Chunk conversion failed: "@, text@);
        },
        PullOutcome::Errored(text) => {
            lemma_ends_with("Python stream errored: "@, text@);
        },
        _ => {},
    }
}

/// A cancellation succeeds exactly if the iterator could be closed; a failure says what
/// was raised.
pub proof fn law_cancellations_tell_how_closing_went(outcome: CloseOutcome)
    ensures
        closed_with(outcome) is Ok <==> outcome is Closed,
        outcome is CloseFailed ==> fails_saying(closed_with(outcome), outcome->CloseFailed_0@),
        outcome is AwaitFailed ==> fails_saying(closed_with(outcome), outcome->AwaitFailed_0@),
        outcome is Errored ==> fails_saying(closed_with(outcome), outcome->Errored_0@),
{
    match outcome {
        CloseOutcome::CloseFailed(text) => {
            lemma_ends_with("aclose() failed: "@, text@);
        },
        CloseOutcome::AwaitFailed(text) => {
            lemma_ends_with("Failed to await aclose(): "@, text@);
        },
        CloseOutcome::Errored(text) => {
            lemma_ends_with("aclose() errored: "@, text@);
        },
        CloseOutcome::Closed => {},
    }
}

/// An iterable that was registered is kept with its task locals, without an iterator,
/// under the id that was next, and counted; the others stay as they were.
pub proof fn law_registered_iterables_are_kept(
    streams: PyStreamsView,
    iterable: u64,
    task_locals: u64,
    other: u32,
)
    ensures
        ({
            let after = streams.registered(iterable, task_locals);
            let id = streams.next_id;
            &&& after.entries.contains_key(id)
            &&& after.entries[id].iterable == iterable
            &&& after.entries[id].task_locals == task_locals
            &&& after.entries[id].iterator is None
            &&& after.next_id != id
            &&& id < u32::MAX ==> after.next_id == id + 1
            &&& streams.active < u64::MAX ==> after.active == streams.active + 1
            &&& streams.total < u64::MAX ==> after.total == streams.total + 1
            &&& after.bytes == streams.bytes && after.listeners == streams.listeners
                && after.limits == streams.limits
            &&& other != id ==> after.entries.contains_key(other) == streams.entries.contains_key(
                other,
            ) && after.entries[other] == streams.entries[other]
        }),
{
}

/// An iterable that was taken out is gone, and every listener is told of it; the others
/// stay as they were. Of one that was not there nobody is told.
pub proof fn law_removed_iterables_are_gone(streams: PyStreamsView, id: u32, other: u32)
    ensures
        ({
            let after = streams.removed(id);
            &&& !after.entries.contains_key(id)
            &&& streams.entries.contains_key(id) && streams.active > 0 ==> after.active
                == streams.active - 1
            &&& !streams.entries.contains_key(id) ==> after == streams
            &&& after.total == streams.total && after.bytes == streams.bytes && after.next_id
                == streams.next_id && after.listeners == streams.listeners
            &&& other != id ==> after.entries.contains_key(other) == streams.entries.contains_key(
                other,
            ) && after.entries[other] == streams.entries[other]
        }),
        streams.entries.contains_key(id) ==> streams.told_of(id) == streams.listeners,
        !streams.entries.contains_key(id) ==> streams.told_of(id).len() == 0,
{
}

/// A pull counts the bytes of a byte buffer. The end of the stream takes it out; a chunk
/// before the end, and a failure, leave it in.
pub proof fn law_pulls_are_counted(
    streams: PyStreamsView,
    id: u32,
    bytes: Seq<u8>,
    value: Option<JsView>,
    err: ErrorView,
)
    requires
        streams.bytes + bytes.len() <= u64::MAX,
        value is Some ==> !(value->0 is Bytes),
    ensures
        ({
            let after = streams.after_pull(
                id,
                Ok(ChunkView { done: false, value: Some(JsView::Bytes(bytes)) }),
            );
            after.bytes == streams.bytes + bytes.len() && after.entries == streams.entries
                && after.active == streams.active
        }),
        ({
            let after = streams.after_pull(
                id,
                Ok(ChunkView { done: true, value: Some(JsView::Bytes(bytes)) }),
            );
            after.bytes == streams.bytes + bytes.len() && !after.entries.contains_key(id)
        }),
        streams.after_pull(id, Ok(ChunkView { done: false, value })) == streams,
        ({
            let after = streams.after_pull(id, Ok(ChunkView { done: true, value }));
            after.bytes == streams.bytes && !after.entries.contains_key(id) && (
            streams.entries.contains_key(id) && streams.active > 0 ==> after.active
                == streams.active - 1)
        }),
        streams.after_pull(id, Err(err)) == streams,
{
}

/// A chunk is read from the `done` and `value` of an object, whatever else it holds: a
/// boolean `done` is taken as it is, and without one there is no chunk. Nothing but an
/// object is a chunk.
pub proof fn law_chunks_are_read_from_their_properties(
    payload: JsView,
    entries: Seq<(Seq<char>, JsView)>,
)
    requires
        distinct_keys(entries),
    ensures
        !(payload is Object) ==> chunk_of(payload) is Err,
        lookup(entries, "done"@) is None ==> chunk_of(JsView::Object(entries)) is Err,
        lookup(entries, "done"@) is Some && lookup(entries, "done"@)->0 is Bool ==> chunk_of(
            JsView::Object(entries),
        ) is Ok && chunk_of(JsView::Object(entries))->Ok_0.done == lookup(
            entries,
            "done"@,
        )->0->Bool_0,
        chunk_of(JsView::Object(entries)) is Ok ==> chunk_of(JsView::Object(entries))->Ok_0.value
            == lookup(entries, "value"@),
        lookup(entries, "__pydeno_type"@) is None && lookup(entries, "done"@) == Some(
            JsView::String("true"@),
        ) ==> chunk_of(JsView::Object(entries)) is Ok && chunk_of(
            JsView::Object(entries),
        )->Ok_0.done,
        lookup(entries, "__pydeno_type"@) is None && lookup(entries, "done"@) == Some(
            JsView::String("false"@),
        ) ==> chunk_of(JsView::Object(entries)) is Ok && !chunk_of(
            JsView::Object(entries),
        )->Ok_0.done,
{
    lemma_chunk_keys_differ();
    law_removed_properties_are_gone(entries, "__pydeno_type"@, "done"@);
    law_removed_properties_are_gone(entries, "__pydeno_type"@, "value"@);
    let untyped = without(entries, "__pydeno_type"@);
    law_removed_properties_are_gone(untyped, "done"@, "value"@);
}

/// Merged counters are the sums of the counters.
pub proof fn law_merged_counters_add_up(a: StreamStatsSnapshot, b: StreamStatsSnapshot)
    requires
        a.active_js_streams + b.active_js_streams <= u64::MAX,
        a.active_py_streams + b.active_py_streams <= u64::MAX,
        a.total_js_streams + b.total_js_streams <= u64::MAX,
        a.total_py_streams + b.total_py_streams <= u64::MAX,
        a.bytes_streamed_js_to_py + b.bytes_streamed_js_to_py <= u64::MAX,
        a.bytes_streamed_py_to_js + b.bytes_streamed_py_to_js <= u64::MAX,
    ensures
        merged(a, b).active_js_streams == a.active_js_streams + b.active_js_streams,
        merged(a, b).active_py_streams == a.active_py_streams + b.active_py_streams,
        merged(a, b).total_js_streams == a.total_js_streams + b.total_js_streams,
        merged(a, b).total_py_streams == a.total_py_streams + b.total_py_streams,
        merged(a, b).bytes_streamed_js_to_py == a.bytes_streamed_js_to_py
            + b.bytes_streamed_js_to_py,
        merged(a, b).bytes_streamed_py_to_js == a.bytes_streamed_py_to_js
            + b.bytes_streamed_py_to_js,
{
}

/// A chunk is handed to JavaScript as an object with its type, whether it is the last
/// one, and its value where it has one.
pub proof fn law_chunks_are_written_with_their_properties(chunk: ChunkView)
    ensures
        distinct_keys(chunk_entries(chunk)),
        lookup(chunk_entries(chunk), "__pydeno_type"@) == Some(JsView::String("StreamChunk"@)),
        lookup(chunk_entries(chunk), "done"@) == Some(JsView::Bool(chunk.done)),
        lookup(chunk_entries(chunk), "value"@) == chunk.value,
{
    lemma_chunk_keys_differ();
    let entries = chunk_entries(chunk);
    assert(distinct_keys(entries));
    lemma_position_is(entries, "__pydeno_type"@, 0);
    lemma_position_is(entries, "done"@, 1);
    match chunk.value {
        Some(_) => {
            lemma_position_is(entries, "value"@, 2);
        },
        None => {
            lemma_position(entries, "value"@);
            if position(entries, "value"@) is Some {
                let i = position(entries, "value"@)->0;
                assert(entries[i].0 == "value"@);
            }
        },
    }
}

/// A proxy that is closed for the first time cancels its stream exactly if it still had
/// its runtime; it has none afterwards, and stands for the same stream.
pub proof fn law_closing_cancels_live_streams(state: StreamSharedState, source: PyStreamSource)
    ensures
        stream_cancelled(state).1 <==> !state.closed && state.attached,
        stream_cancelled(state).0.stream_id == state.stream_id,
        !state.closed ==> !stream_cancelled(state).0.attached,
        source_closed(source).1 <==> !source.closed && source.attached,
        source_closed(source).0.stream_id == source.stream_id,
        !source.closed ==> !source_closed(source).0.attached,
{
}

/// A proxy can be handed over exactly while it is open and has its runtime, and by its
/// own id.
pub proof fn law_open_proxies_are_handed_over(
    function: JsFunction,
    shut_down: bool,
    source: PyStreamSource,
)
    ensures
        transferred_function(function, shut_down) is Ok <==> !function.closed && function.attached
            && !shut_down,
        transferred_function(function, shut_down) is Ok ==> transferred_function(
            function,
            shut_down,
        )->Ok_0 == function.fn_id,
        transferred_stream(source) is Ok <==> !source.closed && source.attached,
        transferred_stream(source) is Ok ==> transferred_stream(source)->Ok_0 == source.stream_id,
{
}

} // verus!
