//! Streaming registries bridging JavaScript `ReadableStream`s and Python async iterables.
//!
//! The registries hand out ids and keep the counts. The engine's stream objects
//! and the interpreter's iterators are kept by whoever drives the registries,
//! under the same ids.

use crate::error::{ErrorView, RuntimeError, RuntimeResult};
use crate::js_value::{lemma_view, lookup, without, JSValue, JsView, ObjectMap};
use crate::limits::SerializationLimits;
use crate::text::{join2, str_eq};
use std::collections::HashMap;
use vstd::prelude::*;

verus! {

broadcast use {lemma_view, vstd::std_specs::hash::group_hash_axioms};

/// Streaming usage counters (active/total per side, bytes per direction).
#[derive(Debug, Clone, Copy, PartialEq, Eq, Structural)]
pub struct StreamStatsSnapshot {
    pub active_js_streams: u64,
    pub active_py_streams: u64,
    pub total_js_streams: u64,
    pub total_py_streams: u64,
    pub bytes_streamed_js_to_py: u64,
    pub bytes_streamed_py_to_js: u64,
}

/// The sum of two counts, held at the largest one.
pub open spec fn count_sum(a: u64, b: u64) -> u64 {
    if a + b <= u64::MAX {
        (a + b) as u64
    } else {
        u64::MAX
    }
}

/// One fewer, at least none.
pub open spec fn count_less_one(a: u64) -> u64 {
    if a > 0 {
        (a - 1) as u64
    } else {
        0
    }
}

/// The counters of both snapshots together.
pub open spec fn merged(a: StreamStatsSnapshot, b: StreamStatsSnapshot) -> StreamStatsSnapshot {
    StreamStatsSnapshot {
        active_js_streams: count_sum(a.active_js_streams, b.active_js_streams),
        active_py_streams: count_sum(a.active_py_streams, b.active_py_streams),
        total_js_streams: count_sum(a.total_js_streams, b.total_js_streams),
        total_py_streams: count_sum(a.total_py_streams, b.total_py_streams),
        bytes_streamed_js_to_py: count_sum(a.bytes_streamed_js_to_py, b.bytes_streamed_js_to_py),
        bytes_streamed_py_to_js: count_sum(a.bytes_streamed_py_to_js, b.bytes_streamed_py_to_js),
    }
}

/// A snapshot in which nothing was counted.
pub open spec fn no_streams() -> StreamStatsSnapshot {
    StreamStatsSnapshot {
        active_js_streams: 0,
        active_py_streams: 0,
        total_js_streams: 0,
        total_py_streams: 0,
        bytes_streamed_js_to_py: 0,
        bytes_streamed_py_to_js: 0,
    }
}

impl Default for StreamStatsSnapshot {
    fn default() -> (snapshot: Self)
        ensures
            snapshot == no_streams(),
    {
        StreamStatsSnapshot {
            active_js_streams: 0,
            active_py_streams: 0,
            total_js_streams: 0,
            total_py_streams: 0,
            bytes_streamed_js_to_py: 0,
            bytes_streamed_py_to_js: 0,
        }
    }
}

impl StreamStatsSnapshot {
    /// Adds the counters of `other`.
    pub fn merge(&mut self, other: &StreamStatsSnapshot)
        ensures
            *final(self) == merged(*old(self), *other),
    {
        self.active_js_streams = self.active_js_streams.saturating_add(other.active_js_streams);
        self.active_py_streams = self.active_py_streams.saturating_add(other.active_py_streams);
        self.total_js_streams = self.total_js_streams.saturating_add(other.total_js_streams);
        self.total_py_streams = self.total_py_streams.saturating_add(other.total_py_streams);
        self.bytes_streamed_js_to_py =
        self.bytes_streamed_js_to_py.saturating_add(other.bytes_streamed_js_to_py);
        self.bytes_streamed_py_to_js =
        self.bytes_streamed_py_to_js.saturating_add(other.bytes_streamed_py_to_js);
    }
}

/// Merging does not depend on the order, and merging with nothing changes nothing.
pub proof fn law_merge_is_a_sum(
    a: StreamStatsSnapshot,
    b: StreamStatsSnapshot,
    c: StreamStatsSnapshot,
)
    ensures
        merged(a, b) == merged(b, a),
        merged(merged(a, b), c) == merged(a, merged(b, c)),
        merged(a, no_streams()) == a,
{
}

/// A chunk pulled from a JS or Python stream, shaped like
/// `ReadableStreamDefaultReader.read()`'s result.
#[derive(Debug)]
pub struct StreamChunk {
    pub done: bool,
    pub value: Option<JSValue>,
}

/// What a chunk holds.
#[verifier::ext_equal]
pub struct ChunkView {
    pub done: bool,
    pub value: Option<JsView>,
}

/// What an optional value holds.
pub open spec fn option_view(value: Option<JSValue>) -> Option<JsView> {
    match value {
        Some(v) => Some(v.view()),
        None => None,
    }
}

impl View for StreamChunk {
    type V = ChunkView;

    open spec fn view(&self) -> ChunkView {
        ChunkView { done: self.done, value: option_view(self.value) }
    }
}

impl Clone for StreamChunk {
    fn clone(&self) -> (copy: Self)
        ensures
            copy@ == self@,
    {
        StreamChunk {
            done: self.done,
            value: match &self.value {
                Some(value) => Some(value.clone()),
                None => None,
            },
        }
    }
}

/// Why a value is no chunk.
#[derive(Debug)]
pub enum ChunkError {
    /// The value is no object.
    UnexpectedPayload(JSValue),
    /// A tagged chunk without a boolean `done`.
    MissingDoneFlag(Option<JSValue>),
    /// An untagged chunk whose `done` is neither a boolean nor its text.
    InvalidDoneField(JSValue),
    /// An untagged chunk without `done`.
    MissingDoneField,
}

#[verifier::ext_equal]
pub enum ChunkFault {
    UnexpectedPayload(JsView),
    MissingDoneFlag(Option<JsView>),
    InvalidDoneField(JsView),
    MissingDoneField,
}

impl View for ChunkError {
    type V = ChunkFault;

    open spec fn view(&self) -> ChunkFault {
        match *self {
            ChunkError::UnexpectedPayload(value) => ChunkFault::UnexpectedPayload(value.view()),
            ChunkError::MissingDoneFlag(value) => ChunkFault::MissingDoneFlag(option_view(value)),
            ChunkError::InvalidDoneField(value) => ChunkFault::InvalidDoneField(value.view()),
            ChunkError::MissingDoneField => ChunkFault::MissingDoneField,
        }
    }
}

/// The text of a chunk fault; `shown` is how its payload prints.
pub open spec fn chunk_fault_text(fault: ChunkFault, shown: Seq<char>) -> Seq<char> {
    match fault {
        ChunkFault::UnexpectedPayload(_) => "Unexpected chunk payload: "@ + shown,
        ChunkFault::MissingDoneFlag(_) => "Stream chunk missing done flag: "@ + shown,
        ChunkFault::InvalidDoneField(_) => "Invalid done field for stream chunk: "@ + shown,
        ChunkFault::MissingDoneField => "Stream chunk missing done field"@,
    }
}

impl ChunkError {
    /// The runtime error; `shown` is how the payload prints.
    pub fn into_runtime_error(&self, shown: &str) -> (err: RuntimeError)
        ensures
            err@ == ErrorView::Internal(chunk_fault_text(self@, shown@)),
    {
        match self {
            ChunkError::UnexpectedPayload(_) => RuntimeError::internal(
                join2("Unexpected chunk payload: ", shown),
            ),
            ChunkError::MissingDoneFlag(_) => RuntimeError::internal(
                join2("Stream chunk missing done flag: ", shown),
            ),
            ChunkError::InvalidDoneField(_) => RuntimeError::internal(
                join2("Invalid done field for stream chunk: ", shown),
            ),
            ChunkError::MissingDoneField => RuntimeError::internal_text(
                "Stream chunk missing done field",
            ),
        }
    }
}

/// The properties that a chunk is written as.
pub open spec fn chunk_entries(chunk: ChunkView) -> Seq<(Seq<char>, JsView)> {
    let head = seq![
        ("__pydeno_type"@, JsView::String("StreamChunk"@)),
        ("done"@, JsView::Bool(chunk.done)),
    ];
    match chunk.value {
        Some(value) => head.push(("value"@, value)),
        None => head,
    }
}

/// What is read from a chunk's properties. Tagged chunks require a boolean
/// `done`; untagged ones also accept the texts "true" and "false".
pub open spec fn chunk_of(payload: JsView) -> Result<ChunkView, ChunkFault> {
    match payload {
        JsView::Object(entries) => {
            let tagged = lookup(entries, "__pydeno_type"@) == Some(
                JsView::String("StreamChunk"@),
            );
            let untyped = without(entries, "__pydeno_type"@);
            let flag = lookup(untyped, "done"@);
            let rest = without(untyped, "done"@);
            let value = lookup(rest, "value"@);
            match flag {
                Some(JsView::Bool(done)) => Ok(ChunkView { done, value }),
                _ => if tagged {
                    Err(ChunkFault::MissingDoneFlag(flag))
                } else {
                    match flag {
                        Some(JsView::String(text)) => if text == "true"@ {
                            Ok(ChunkView { done: true, value })
                        } else if text == "false"@ {
                            Ok(ChunkView { done: false, value })
                        } else {
                            Err(ChunkFault::InvalidDoneField(flag->0))
                        },
                        Some(other) => Err(ChunkFault::InvalidDoneField(other)),
                        None => Err(ChunkFault::MissingDoneField),
                    }
                },
            }
        },
        _ => Err(ChunkFault::UnexpectedPayload(payload)),
    }
}

pub(crate) proof fn lemma_chunk_keys_differ()
    ensures
        "__pydeno_type"@ != "done"@,
        "__pydeno_type"@ != "value"@,
        "done"@ != "value"@,
        "true"@ != "false"@,
{
    reveal_strlit("__pydeno_type");
    reveal_strlit("done");
    reveal_strlit("value");
    reveal_strlit("true");
    reveal_strlit("false");
    assert("__pydeno_type"@.len() == 13);
    assert("done"@.len() == 4);
    assert("value"@.len() == 5);
    assert("true"@.len() == 4);
    assert("false"@.len() == 5);
}

impl StreamChunk {
    /// The object that a chunk is handed to JavaScript as.
    pub fn to_js_value(&self) -> (payload: JSValue)
        ensures
            payload.view() == JsView::Object(chunk_entries(self@)),
    {
        proof {
            lemma_chunk_keys_differ();
        }
        let mut map = ObjectMap::new();
        map.insert("__pydeno_type".to_owned(), JSValue::String("StreamChunk".to_owned()));
        assert(map@ =~= seq![("__pydeno_type"@, JsView::String("StreamChunk"@))]);
        proof {
            crate::js_value::lemma_position(map@, "done"@);
        }
        map.insert("done".to_owned(), JSValue::Bool(self.done));
        assert(map@ =~= seq![
            ("__pydeno_type"@, JsView::String("StreamChunk"@)),
            ("done"@, JsView::Bool(self.done)),
        ]);
        if let Some(value) = &self.value {
            let ghost before = map@;
            proof {
                crate::js_value::lemma_position(before, "value"@);
            }
            map.insert("value".to_owned(), value.clone());
            assert(map@ =~= chunk_entries(self@));
        }
        assert(map@ =~= chunk_entries(self@));
        JSValue::Object(map)
    }

    /// Reads a chunk from the object that a stream's reader returned.
    pub fn from_js_value(payload: JSValue) -> (result: Result<StreamChunk, ChunkError>)
        ensures
            match result {
                Ok(chunk) => chunk_of(payload.view()) == Ok::<_, ChunkFault>(chunk@),
                Err(err) => chunk_of(payload.view()) == Err::<ChunkView, _>(err@),
            },
    {
        let mut map: ObjectMap = match payload {
            JSValue::Object(map) => map,
            other => return Err(ChunkError::UnexpectedPayload(other)),
        };
        let tagged: bool = match map.shift_remove("__pydeno_type") {
            Some(JSValue::String(tag)) => str_eq(&tag, "StreamChunk"),
            _ => false,
        };
        let flag: Option<JSValue> = map.shift_remove("done");
        let value: Option<JSValue> = map.shift_remove("value");
        match flag {
            Some(JSValue::Bool(done)) => Ok(StreamChunk { done, value }),
            other => {
                if tagged {
                    return Err(ChunkError::MissingDoneFlag(other));
                }
                match other {
                    Some(JSValue::String(text)) => {
                        if str_eq(&text, "true") {
                            Ok(StreamChunk { done: true, value })
                        } else if str_eq(&text, "false") {
                            Ok(StreamChunk { done: false, value })
                        } else {
                            Err(ChunkError::InvalidDoneField(JSValue::String(text)))
                        }
                    },
                    Some(unexpected) => Err(ChunkError::InvalidDoneField(unexpected)),
                    None => Err(ChunkError::MissingDoneField),
                }
            },
        }
    }
}

/// A plain read result is read as it is.
pub(crate) proof fn lemma_plain_chunk(payload: JsView, done: bool, value: JsView)
    requires
        payload == JsView::Object(seq![("done"@, JsView::Bool(done)), ("value"@, value)])
            || payload == JsView::Object(seq![("value"@, value), ("done"@, JsView::Bool(done))]),
    ensures
        chunk_of(payload) == Ok::<_, ChunkFault>(ChunkView { done, value: Some(value) }),
{
    lemma_chunk_keys_differ();
    let entries = payload->Object_0;
    assert(crate::js_value::distinct_keys(entries));
    crate::js_value::lemma_position(entries, "__pydeno_type"@);
    let at: int = if entries[0].0 == "done"@ {
        0
    } else {
        1
    };
    crate::js_value::lemma_position_is(entries, "done"@, at);
    let rest = entries.remove(at);
    assert(rest =~= seq![("value"@, value)]);
    crate::js_value::lemma_position_is(rest, "value"@, 0);
}

/// A chunk that was written as an object is read back unchanged.
pub proof fn law_chunk_round_trip(chunk: ChunkView)
    ensures
        chunk_of(JsView::Object(chunk_entries(chunk))) == Ok::<_, ChunkFault>(chunk),
{
    lemma_chunk_keys_differ();
    let entries = chunk_entries(chunk);
    let tag = ("__pydeno_type"@, JsView::String("StreamChunk"@));
    let done = ("done"@, JsView::Bool(chunk.done));
    assert(crate::js_value::distinct_keys(entries));
    crate::js_value::lemma_position_is(entries, "__pydeno_type"@, 0);
    let untyped = entries.remove(0);
    assert(untyped[0] == done);
    assert(crate::js_value::distinct_keys(untyped));
    crate::js_value::lemma_position_is(untyped, "done"@, 0);
    let rest = untyped.remove(0);
    match chunk.value {
        Some(value) => {
            assert(rest =~= seq![("value"@, value)]);
            crate::js_value::lemma_position_is(rest, "value"@, 0);
        },
        None => {
            assert(rest =~= Seq::empty());
        },
    }
}

/// What is kept of a registered JavaScript stream.
#[derive(Debug, Clone, Copy, PartialEq, Eq, Structural)]
pub struct JsStreamEntry {
    /// The stream, by the slot of its handle.
    pub stream: u64,
    /// Its reader, once one was obtained.
    pub reader: Option<u64>,
    pub chunks: u64,
    pub transferred_bytes: u64,
}

/// What a `JsStreamRegistry` holds.
#[verifier::ext_equal]
pub struct JsStreamsView {
    pub entries: Map<u32, JsStreamEntry>,
    pub next_id: u32,
    pub active: u64,
    pub total: u64,
    pub bytes: u64,
}

/// The id after `id`; the last one is followed by zero.
pub open spec fn id_after(id: u32) -> u32 {
    if id < u32::MAX {
        (id + 1) as u32
    } else {
        0
    }
}

/// The payload bytes of a chunk, if its value is a byte buffer.
pub open spec fn chunk_bytes(chunk: ChunkView) -> Option<u64> {
    match chunk.value {
        Some(JsView::Bytes(bytes)) => Some(bytes.len() as u64),
        _ => None,
    }
}

impl JsStreamsView {
    /// No streams, and ids from zero on.
    pub open spec fn fresh() -> JsStreamsView {
        JsStreamsView { entries: Map::empty(), next_id: 0, active: 0, total: 0, bytes: 0 }
    }

    /// After one more stream was registered under the next id.
    pub open spec fn registered(self, stream: u64) -> JsStreamsView {
        JsStreamsView {
            entries: self.entries.insert(
                self.next_id,
                JsStreamEntry { stream, reader: None, chunks: 0, transferred_bytes: 0 },
            ),
            next_id: id_after(self.next_id),
            active: count_sum(self.active, 1),
            total: count_sum(self.total, 1),
            ..self
        }
    }

    /// What releasing or cancelling a stream is answered.
    pub open spec fn release_result(self, id: u32) -> Result<(), ErrorView> {
        if self.entries.contains_key(id) {
            Ok(())
        } else {
            Err(ErrorView::Internal("Unknown stream id"@))
        }
    }

    /// After a stream was released; an unknown id changes nothing.
    pub open spec fn released(self, id: u32) -> JsStreamsView {
        if self.entries.contains_key(id) {
            JsStreamsView {
                entries: self.entries.remove(id),
                active: count_less_one(self.active),
                ..self
            }
        } else {
            self
        }
    }

    /// After a reader was obtained; an unknown id changes nothing.
    pub open spec fn with_reader(self, id: u32, reader: u64) -> JsStreamsView {
        if self.entries.contains_key(id) {
            JsStreamsView {
                entries: self.entries.insert(
                    id,
                    JsStreamEntry { reader: Some(reader), ..self.entries[id] },
                ),
                ..self
            }
        } else {
            self
        }
    }

    /// After a chunk was read; an unknown id changes nothing.
    pub open spec fn after_chunk(self, id: u32, chunk: ChunkView) -> JsStreamsView {
        if self.entries.contains_key(id) {
            let entry = self.entries[id];
            match chunk_bytes(chunk) {
                Some(n) => JsStreamsView {
                    entries: self.entries.insert(
                        id,
                        JsStreamEntry {
                            chunks: count_sum(entry.chunks, 1),
                            transferred_bytes: count_sum(entry.transferred_bytes, n),
                            ..entry
                        },
                    ),
                    bytes: count_sum(self.bytes, n),
                    ..self
                },
                None => JsStreamsView {
                    entries: self.entries.insert(
                        id,
                        JsStreamEntry { chunks: count_sum(entry.chunks, 1), ..entry },
                    ),
                    ..self
                },
            }
        } else {
            self
        }
    }
}

/// Registry of live JS `ReadableStream`s (and their readers) consumed from Python.
pub struct JsStreamRegistry {
    entries: HashMap<u32, JsStreamEntry>,
    next_id: u32,
    active: u64,
    total: u64,
    bytes: u64,
}

impl View for JsStreamRegistry {
    type V = JsStreamsView;

    closed spec fn view(&self) -> JsStreamsView {
        JsStreamsView {
            entries: self.entries@,
            next_id: self.next_id,
            active: self.active,
            total: self.total,
            bytes: self.bytes,
        }
    }
}

impl JsStreamRegistry {
    pub fn new() -> (registry: Self)
        ensures
            registry@ == JsStreamsView::fresh(),
    {
        let registry = JsStreamRegistry {
            entries: HashMap::new(),
            next_id: 0,
            active: 0,
            total: 0,
            bytes: 0,
        };
        assert(registry@.entries =~= Map::empty());
        registry
    }

    /// Registers a stream and returns the id under which it is kept.
    pub fn register_stream(&mut self, stream: u64) -> (id: u32)
        ensures
            id == old(self)@.next_id,
            final(self)@ == old(self)@.registered(stream),
    {
        let id: u32 = self.next_id;
        self.next_id = id.wrapping_add(1);
        self.entries.insert(
            id,
            JsStreamEntry { stream, reader: None, chunks: 0, transferred_bytes: 0 },
        );
        self.active = self.active.saturating_add(1);
        self.total = self.total.saturating_add(1);
        id
    }

    /// Forgets a stream.
    pub fn release(&mut self, stream_id: u32)
        ensures
            final(self)@ == old(self)@.released(stream_id),
    {
        let ghost before = self@;
        match self.entries.remove(&stream_id) {
            Some(_) => {
                self.active = self.active.saturating_sub(1);
            },
            None => {
                assert(self@ =~= before);
            },
        }
    }

    /// Usage counters of the JavaScript side.
    pub fn stats_snapshot(&self) -> (snapshot: StreamStatsSnapshot)
        ensures
            snapshot == (StreamStatsSnapshot {
                active_js_streams: self@.active,
                total_js_streams: self@.total,
                bytes_streamed_js_to_py: self@.bytes,
                ..no_streams()
            }),
    {
        StreamStatsSnapshot {
            active_js_streams: self.active,
            active_py_streams: 0,
            total_js_streams: self.total,
            total_py_streams: 0,
            bytes_streamed_js_to_py: self.bytes,
            bytes_streamed_py_to_js: 0,
        }
    }

    /// The stream with its reader; without one, a reader is to be obtained and noted
    /// with [`JsStreamRegistry::attach_reader`].
    pub fn ensure_reader(&self, stream_id: u32) -> (result: RuntimeResult<JsStreamEntry>)
        ensures
            match result {
                Ok(entry) => self@.entries.contains_key(stream_id) && entry
                    == self@.entries[stream_id],
                Err(err) => !self@.entries.contains_key(stream_id) && err@ == ErrorView::Internal(
                    "Unknown stream id"@,
                ),
            },
    {
        match self.entries.get(&stream_id) {
            Some(entry) => Ok(*entry),
            None => Err(RuntimeError::internal_text("Unknown stream id")),
        }
    }

    /// Notes the reader that was obtained for a stream.
    pub fn attach_reader(&mut self, stream_id: u32, reader: u64)
        ensures
            final(self)@ == old(self)@.with_reader(stream_id, reader),
    {
        let known: Option<JsStreamEntry> = match self.entries.get(&stream_id) {
            Some(entry) => Some(*entry),
            None => None,
        };
        if let Some(entry) = known {
            self.entries.insert(stream_id, JsStreamEntry { reader: Some(reader), ..entry });
        }
    }

    /// Counts a chunk that was read; only byte buffers count as transferred bytes.
    pub fn update_stats_after_chunk(&mut self, stream_id: u32, chunk: &StreamChunk)
        ensures
            final(self)@ == old(self)@.after_chunk(stream_id, chunk@),
    {
        let known: Option<JsStreamEntry> = match self.entries.get(&stream_id) {
            Some(entry) => Some(*entry),
            None => None,
        };
        if let Some(entry) = known {
            let chunks: u64 = entry.chunks.saturating_add(1);
            match &chunk.value {
                Some(JSValue::Bytes(bytes)) => {
                    let n: u64 = bytes.len() as u64;
                    let transferred_bytes: u64 = entry.transferred_bytes.saturating_add(n);
                    self.entries.insert(
                        stream_id,
                        JsStreamEntry { chunks, transferred_bytes, ..entry },
                    );
                    self.bytes = self.bytes.saturating_add(n);
                },
                _ => {
                    self.entries.insert(
                        stream_id,
                        JsStreamEntry { chunks, ..entry },
                    );
                },
            }
        }
    }
}

/// Registering a stream and releasing it leaves the live streams and their count
/// as they were, unless the id was taken or the count at its largest.
pub proof fn law_release_undoes_register(streams: JsStreamsView, stream: u64)
    requires
        !streams.entries.contains_key(streams.next_id),
        streams.active < u64::MAX,
    ensures
        streams.registered(stream).released(streams.next_id).entries == streams.entries,
        streams.registered(stream).released(streams.next_id).active == streams.active,
        streams.registered(stream).released(streams.next_id).total == streams.registered(stream).total,
{
    assert(streams.registered(stream).released(streams.next_id).entries =~= streams.entries);
}

/// Releasing a stream a second time changes nothing, and is answered with an error.
pub proof fn law_release_twice_is_once(streams: JsStreamsView, id: u32)
    ensures
        streams.released(id).released(id) == streams.released(id),
        streams.released(id).release_result(id) is Err,
{
}

/// The streams that are live are counted, and no more are live than were ever registered.
pub open spec fn counts_match(streams: JsStreamsView) -> bool {
    &&& streams.entries.dom().finite()
    &&& streams.active == streams.entries.dom().len()
    &&& streams.active <= streams.total
}

/// Every operation keeps the count of live streams right, for as long as the ids
/// are not used up.
pub proof fn law_counts_stay_right(
    streams: JsStreamsView,
    id: u32,
    slot: u64,
    chunk: ChunkView,
)
    requires
        counts_match(streams),
        !streams.entries.contains_key(streams.next_id),
        streams.total < u64::MAX,
    ensures
        counts_match(JsStreamsView::fresh()),
        counts_match(streams.registered(slot)),
        counts_match(streams.released(id)),
        counts_match(streams.with_reader(id, slot)),
        counts_match(streams.after_chunk(id, chunk)),
{
    assert(Map::<u32, JsStreamEntry>::empty().dom() =~= Set::empty());
    assert(streams.registered(slot).entries.dom() =~= streams.entries.dom().insert(streams.next_id));
    assert(streams.released(id).entries.dom() =~= streams.entries.dom().remove(id));
    assert(streams.with_reader(id, slot).entries.dom() =~= streams.entries.dom());
    assert(streams.after_chunk(id, chunk).entries.dom() =~= streams.entries.dom());
}

/// A method that is called on a stream or its reader.
#[derive(Debug, Clone, Copy, PartialEq, Eq, Structural)]
pub enum StreamMethod {
    GetReader,
    Read,
}

/// How far a method call got before it failed.
#[derive(Debug, Clone, Copy, PartialEq, Eq, Structural)]
pub enum MethodFailure {
    /// The engine could not allocate the method's name.
    KeyAllocation,
    /// The object has no such property.
    Missing,
    /// The property is no function.
    NotCallable,
    /// The call threw.
    Threw,
    /// The call returned something of the wrong kind.
    WrongResult,
}

/// The text for a method call that failed.
pub open spec fn method_failure_text(method: StreamMethod, failure: MethodFailure) -> Seq<char> {
    match (method, failure) {
        (StreamMethod::GetReader, MethodFailure::KeyAllocation) =>
            "Failed to allocate getReader string"@,
        (StreamMethod::GetReader, MethodFailure::Missing) => "ReadableStream.getReader missing"@,
        (StreamMethod::GetReader, MethodFailure::NotCallable) => "getReader is not a function"@,
        (StreamMethod::GetReader, MethodFailure::Threw) => "getReader threw"@,
        (StreamMethod::GetReader, MethodFailure::WrongResult) =>
            "getReader did not return object"@,
        (StreamMethod::Read, MethodFailure::KeyAllocation) => "Failed to allocate read key"@,
        (StreamMethod::Read, MethodFailure::Missing) => "Reader.read missing"@,
        (StreamMethod::Read, MethodFailure::NotCallable) => "Reader.read is not callable"@,
        (StreamMethod::Read, MethodFailure::Threw) => "Reader.read threw"@,
        (StreamMethod::Read, MethodFailure::WrongResult) => "Reader.read must return a promise"@,
    }
}

/// The error for a method call that failed.
pub fn method_error(method: StreamMethod, failure: MethodFailure) -> (err: RuntimeError)
    ensures
        err@ == ErrorView::Internal(method_failure_text(method, failure)),
{
    let text: &str = match (method, failure) {
        (StreamMethod::GetReader, MethodFailure::KeyAllocation) =>
            "Failed to allocate getReader string",
        (StreamMethod::GetReader, MethodFailure::Missing) => "ReadableStream.getReader missing",
        (StreamMethod::GetReader, MethodFailure::NotCallable) => "getReader is not a function",
        (StreamMethod::GetReader, MethodFailure::Threw) => "getReader threw",
        (StreamMethod::GetReader, MethodFailure::WrongResult) => "getReader did not return object",
        (StreamMethod::Read, MethodFailure::KeyAllocation) => "Failed to allocate read key",
        (StreamMethod::Read, MethodFailure::Missing) => "Reader.read missing",
        (StreamMethod::Read, MethodFailure::NotCallable) => "Reader.read is not callable",
        (StreamMethod::Read, MethodFailure::Threw) => "Reader.read threw",
        (StreamMethod::Read, MethodFailure::WrongResult) => "Reader.read must return a promise",
    };
    RuntimeError::internal_text(text)
}

/// What came of asking a Python iterator for its next item.
#[derive(Debug)]
pub enum PullOutcome {
    /// An item, converted.
    Value(JSValue),
    /// The iterator is exhausted.
    Stopped,
    /// Getting the iterator raised.
    IteratorFailed(String),
    /// Asking for the next item raised.
    NextFailed(String),
    /// What was returned cannot be awaited.
    AwaitFailed(String),
    /// The item could not be converted.
    ConversionFailed(String),
    /// Awaiting the item raised.
    Errored(String),
}

/// The chunk or the error that an outcome amounts to.
pub open spec fn pulled(outcome: PullOutcome) -> Result<ChunkView, ErrorView> {
    match outcome {
        PullOutcome::Value(value) => Ok(ChunkView { done: false, value: Some(value.view()) }),
        PullOutcome::Stopped => Ok(ChunkView { done: true, value: None }),
        PullOutcome::IteratorFailed(text) => Err(
            ErrorView::Internal("Failed to get __aiter__: "@ + text@),
        ),
        PullOutcome::NextFailed(text) => Err(ErrorView::Internal("__anext__ failed: "@ + text@)),
        PullOutcome::AwaitFailed(text) => Err(
            ErrorView::Internal("Failed to await __anext__: "@ + text@),
        ),
        PullOutcome::ConversionFailed(text) => Err(
            ErrorView::Internal("Chunk conversion failed: "@ + text@),
        ),
        PullOutcome::Errored(text) => Err(ErrorView::Internal("Python stream errored: "@ + text@)),
    }
}

/// A chunk or error by its view.
pub open spec fn chunk_result(result: RuntimeResult<StreamChunk>) -> Result<ChunkView, ErrorView> {
    match result {
        Ok(chunk) => Ok(chunk@),
        Err(err) => Err(err@),
    }
}

fn next_chunk(outcome: PullOutcome) -> (result: RuntimeResult<StreamChunk>)
    ensures
        chunk_result(result) == pulled(outcome),
{
    match outcome {
        PullOutcome::Value(value) => Ok(StreamChunk { done: false, value: Some(value) }),
        PullOutcome::Stopped => Ok(StreamChunk { done: true, value: None }),
        PullOutcome::IteratorFailed(text) => Err(
            RuntimeError::internal(join2("Failed to get __aiter__: ", &text)),
        ),
        PullOutcome::NextFailed(text) => Err(
            RuntimeError::internal(join2("__anext__ failed: ", &text)),
        ),
        PullOutcome::AwaitFailed(text) => Err(
            RuntimeError::internal(join2("Failed to await __anext__: ", &text)),
        ),
        PullOutcome::ConversionFailed(text) => Err(
            RuntimeError::internal(join2("Chunk conversion failed: ", &text)),
        ),
        PullOutcome::Errored(text) => Err(
            RuntimeError::internal(join2("Python stream errored: ", &text)),
        ),
    }
}

/// What came of closing a Python iterator.
#[derive(Debug)]
pub enum CloseOutcome {
    /// Closed, or there was nothing to close.
    Closed,
    /// Calling `aclose()` raised.
    CloseFailed(String),
    /// What `aclose()` returned cannot be awaited.
    AwaitFailed(String),
    /// Awaiting it raised something other than the end of the iteration.
    Errored(String),
}

/// The result of a cancellation whose iterator was closed with this outcome.
pub open spec fn closed_with(outcome: CloseOutcome) -> Result<(), ErrorView> {
    match outcome {
        CloseOutcome::Closed => Ok(()),
        CloseOutcome::CloseFailed(text) => Err(ErrorView::Internal("aclose() failed: "@ + text@)),
        CloseOutcome::AwaitFailed(text) => Err(
            ErrorView::Internal("Failed to await aclose(): "@ + text@),
        ),
        CloseOutcome::Errored(text) => Err(ErrorView::Internal("aclose() errored: "@ + text@)),
    }
}

/// The result of a cancellation whose iterator was closed with this outcome.
pub fn finish_cancel(outcome: CloseOutcome) -> (result: RuntimeResult<()>)
    ensures
        crate::error::unit_view(result) == closed_with(outcome),
{
    match outcome {
        CloseOutcome::Closed => Ok(()),
        CloseOutcome::CloseFailed(text) => Err(
            RuntimeError::internal(join2("aclose() failed: ", &text)),
        ),
        CloseOutcome::AwaitFailed(text) => Err(
            RuntimeError::internal(join2("Failed to await aclose(): ", &text)),
        ),
        CloseOutcome::Errored(text) => Err(
            RuntimeError::internal(join2("aclose() errored: ", &text)),
        ),
    }
}

/// What is kept of a registered Python iterable.
#[derive(Debug, Clone, Copy, PartialEq, Eq, Structural)]
pub struct PyStreamEntry {
    /// The async iterable, by the number under which the interpreter's object is kept.
    pub iterable: u64,
    /// The task locals that its items are awaited with.
    pub task_locals: u64,
    /// Its iterator, once one was obtained.
    pub iterator: Option<u64>,
}

/// What a `PyStreamRegistry` holds.
#[verifier::ext_equal]
pub struct PyStreamsView {
    pub entries: Map<u32, PyStreamEntry>,
    pub next_id: u32,
    pub active: u64,
    pub total: u64,
    pub bytes: u64,
    pub listeners: Seq<u64>,
    pub limits: SerializationLimits,
}

/// The sum of two counts, starting over past the largest one.
pub open spec fn wrapping_sum(a: u64, b: u64) -> u64 {
    if a + b <= u64::MAX {
        (a + b) as u64
    } else {
        (a + b - u64::MAX - 1) as u64
    }
}

/// One fewer; zero is followed by the largest count.
pub open spec fn wrapping_less_one(a: u64) -> u64 {
    if a > 0 {
        (a - 1) as u64
    } else {
        u64::MAX
    }
}

impl PyStreamsView {
    /// No streams, and ids from one on.
    pub open spec fn fresh(limits: SerializationLimits) -> PyStreamsView {
        PyStreamsView {
            entries: Map::empty(),
            next_id: 1,
            active: 0,
            total: 0,
            bytes: 0,
            listeners: Seq::empty(),
            limits,
        }
    }

    /// After one more iterable was registered under the next id.
    pub open spec fn registered(self, iterable: u64, task_locals: u64) -> PyStreamsView {
        PyStreamsView {
            entries: self.entries.insert(
                self.next_id,
                PyStreamEntry { iterable, task_locals, iterator: None },
            ),
            next_id: id_after(self.next_id),
            active: wrapping_sum(self.active, 1),
            total: wrapping_sum(self.total, 1),
            ..self
        }
    }

    /// After a stream was taken out; an unknown id changes nothing.
    pub open spec fn removed(self, id: u32) -> PyStreamsView {
        if self.entries.contains_key(id) {
            PyStreamsView {
                entries: self.entries.remove(id),
                active: wrapping_less_one(self.active),
                ..self
            }
        } else {
            self
        }
    }

    /// The listeners that are told of the removal of `id`: all of them where the
    /// stream was there, otherwise none.
    pub open spec fn told_of(self, id: u32) -> Seq<u64> {
        if self.entries.contains_key(id) {
            self.listeners
        } else {
            Seq::empty()
        }
    }

    /// After a pull of `id` ended: bytes are counted, and the end of the stream
    /// takes it out.
    pub open spec fn after_pull(self, id: u32, result: Result<ChunkView, ErrorView>) -> PyStreamsView {
        match result {
            Ok(chunk) => {
                let counted = match chunk_bytes(chunk) {
                    Some(n) => PyStreamsView { bytes: wrapping_sum(self.bytes, n), ..self },
                    None => self,
                };
                if chunk.done {
                    counted.removed(id)
                } else {
                    counted
                }
            },
            Err(_) => self,
        }
    }
}

/// Registry of Python async iterables exposed to JavaScript as `ReadableStream`s.
pub struct PyStreamRegistry {
    entries: HashMap<u32, PyStreamEntry>,
    next_id: u32,
    active: u64,
    total: u64,
    bytes: u64,
    release_listeners: Vec<u64>,
    serialization_limits: SerializationLimits,
}

impl View for PyStreamRegistry {
    type V = PyStreamsView;

    closed spec fn view(&self) -> PyStreamsView {
        PyStreamsView {
            entries: self.entries@,
            next_id: self.next_id,
            active: self.active,
            total: self.total,
            bytes: self.bytes,
            listeners: self.release_listeners@,
            limits: self.serialization_limits,
        }
    }
}

/// What cancelling a stream asks for.
#[derive(Debug)]
pub struct CancelPlan {
    /// The listeners to be told that the stream is gone, in order.
    pub notify: Vec<u64>,
    /// The stream that was taken out; its iterator, if there is one, is to be closed.
    pub entry: PyStreamEntry,
}

impl PyStreamRegistry {
    pub fn new(serialization_limits: SerializationLimits) -> (registry: Self)
        ensures
            registry@ == PyStreamsView::fresh(serialization_limits),
    {
        let registry = PyStreamRegistry {
            entries: HashMap::new(),
            next_id: 1,
            active: 0,
            total: 0,
            bytes: 0,
            release_listeners: Vec::new(),
            serialization_limits,
        };
        assert(registry@.entries =~= Map::empty());
        assert(registry@.listeners =~= Seq::empty());
        registry
    }

    /// Adds a listener, told apart from others by its number, that is told of
    /// every stream that is taken out.
    pub fn add_release_listener(&mut self, listener: u64)
        ensures
            final(self)@ == (PyStreamsView {
                listeners: old(self)@.listeners.push(listener),
                ..old(self)@
            }),
    {
        self.release_listeners.push(listener);
    }

    fn listeners(&self) -> (listeners: Vec<u64>)
        ensures
            listeners@ == self@.listeners,
    {
        let listeners: Vec<u64> = self.release_listeners.clone();
        assert(listeners@ =~= self.release_listeners@);
        listeners
    }

    /// Registers an iterable and returns the id under which it is kept.
    pub fn register_iterable(&mut self, iterable: u64, task_locals: u64) -> (id: u32)
        ensures
            id == old(self)@.next_id,
            final(self)@ == old(self)@.registered(iterable, task_locals),
    {
        let id: u32 = self.next_id;
        self.next_id = id.wrapping_add(1);
        self.entries.insert(id, PyStreamEntry { iterable, task_locals, iterator: None });
        self.active = self.active.wrapping_add(1);
        self.total = self.total.wrapping_add(1);
        id
    }

    /// The stream with its iterator; without one, an iterator is to be obtained and
    /// noted with [`PyStreamRegistry::attach_iterator`].
    pub fn begin_pull(&self, stream_id: u32) -> (result: RuntimeResult<PyStreamEntry>)
        ensures
            match result {
                Ok(entry) => self@.entries.contains_key(stream_id) && entry
                    == self@.entries[stream_id],
                Err(err) => !self@.entries.contains_key(stream_id) && err@ == ErrorView::Internal(
                    "Unknown Python stream id"@,
                ),
            },
    {
        match self.entries.get(&stream_id) {
            Some(entry) => Ok(*entry),
            None => Err(RuntimeError::internal_text("Unknown Python stream id")),
        }
    }

    /// Notes the iterator that was obtained for a stream.
    pub fn attach_iterator(&mut self, stream_id: u32, iterator: u64)
        ensures
            final(self)@ == if old(self)@.entries.contains_key(stream_id) {
                PyStreamsView {
                    entries: old(self)@.entries.insert(
                        stream_id,
                        PyStreamEntry {
                            iterator: Some(iterator),
                            ..old(self)@.entries[stream_id]
                        },
                    ),
                    ..old(self)@
                }
            } else {
                old(self)@
            },
    {
        let known: Option<PyStreamEntry> = match self.entries.get(&stream_id) {
            Some(entry) => Some(*entry),
            None => None,
        };
        if let Some(entry) = known {
            self.entries.insert(stream_id, PyStreamEntry { iterator: Some(iterator), ..entry });
        }
    }

    /// Ends a pull: the chunk or the error, and the listeners to be told when the
    /// stream is gone with it.
    pub fn pull_next(&mut self, stream_id: u32, outcome: PullOutcome) -> (r: (
        RuntimeResult<StreamChunk>,
        Vec<u64>,
    ))
        ensures
            chunk_result(r.0) == pulled(outcome),
            final(self)@ == old(self)@.after_pull(stream_id, pulled(outcome)),
            r.1@ == match pulled(outcome) {
                Ok(chunk) => if chunk.done {
                    old(self)@.told_of(stream_id)
                } else {
                    Seq::empty()
                },
                Err(_) => Seq::empty(),
            },
    {
        let chunk: StreamChunk = match next_chunk(outcome) {
            Ok(chunk) => chunk,
            Err(err) => return (Err(err), Vec::new()),
        };
        if let Some(JSValue::Bytes(bytes)) = &chunk.value {
            self.bytes = self.bytes.wrapping_add(bytes.len() as u64);
        }
        if chunk.done {
            let notify: Vec<u64> = self.release(stream_id);
            (Ok(chunk), notify)
        } else {
            (Ok(chunk), Vec::new())
        }
    }

    /// Takes a stream out in order to cancel it; `None` when it is not there.
    pub fn cancel(&mut self, stream_id: u32) -> (plan: Option<CancelPlan>)
        ensures
            final(self)@ == old(self)@.removed(stream_id),
            match plan {
                Some(p) => old(self)@.entries.contains_key(stream_id) && p.notify@ == old(
                    self,
                )@.listeners && p.entry == old(self)@.entries[stream_id],
                None => !old(self)@.entries.contains_key(stream_id),
            },
    {
        let notify: Vec<u64> = self.listeners();
        match self.remove_entry(stream_id) {
            Some(entry) => Some(CancelPlan { notify, entry }),
            None => None,
        }
    }

    /// Takes a stream out and returns the listeners to be told, in order.
    pub fn release(&mut self, stream_id: u32) -> (notify: Vec<u64>)
        ensures
            final(self)@ == old(self)@.removed(stream_id),
            notify@ == old(self)@.told_of(stream_id),
    {
        let notify: Vec<u64> = self.listeners();
        match self.remove_entry(stream_id) {
            Some(_) => notify,
            None => Vec::new(),
        }
    }

    fn remove_entry(&mut self, stream_id: u32) -> (entry: Option<PyStreamEntry>)
        ensures
            final(self)@ == old(self)@.removed(stream_id),
            match entry {
                Some(e) => old(self)@.entries.contains_key(stream_id) && e
                    == old(self)@.entries[stream_id],
                None => !old(self)@.entries.contains_key(stream_id),
            },
    {
        let ghost before = self@;
        let removed: Option<PyStreamEntry> = self.entries.remove(&stream_id);
        if removed.is_some() {
            self.active = self.active.wrapping_sub(1);
        }
        assert(self@ =~= before.removed(stream_id));
        removed
    }

    /// The limits that chunks are converted under.
    pub fn serialization_limits(&self) -> (limits: SerializationLimits)
        ensures
            limits == self@.limits,
    {
        self.serialization_limits
    }

    /// Usage counters of the Python side.
    pub fn stats_snapshot(&self) -> (snapshot: StreamStatsSnapshot)
        ensures
            snapshot == (StreamStatsSnapshot {
                active_py_streams: self@.active,
                total_py_streams: self@.total,
                bytes_streamed_py_to_js: self@.bytes,
                ..no_streams()
            }),
    {
        StreamStatsSnapshot {
            active_js_streams: 0,
            active_py_streams: self.active,
            total_js_streams: 0,
            total_py_streams: self.total,
            bytes_streamed_js_to_py: 0,
            bytes_streamed_py_to_js: self.bytes,
        }
    }
}

/// Once a Python stream was taken out, taking it out again changes nothing and
/// tells no listener.
pub proof fn law_removal_is_told_once(streams: PyStreamsView, id: u32)
    ensures
        streams.removed(id).removed(id) == streams.removed(id),
        streams.removed(id).told_of(id) == Seq::<u64>::empty(),
{
}

} // verus!
