//! Reading engine values into `JSValue`.
//!
//! The engine is asked about one value at a time. [`V8Importer`] is told what was
//! read, meters it, builds the value and says what to read next; so a length that
//! guest code controls is metered before anything is reserved or walked.

use crate::bigint::{parse_decimal, JsBigInt};
use crate::conversion::{charge, charge_twice, enter, metered, metered_twice};
use crate::double::{clamp, Double};
use crate::error::{ErrorView, RuntimeError};
use crate::functions::{FunctionTable, FunctionsView, StoredFunction};
use crate::js_value::{lemma_view, lemma_views_push, put, views, JSValue, JsView, ObjectMap};
use crate::limits::{saturating_product, slot_bytes, word_bytes, LimitState, LimitTracker};
use crate::stream::{JsStreamRegistry, JsStreamsView};
use crate::text::{byte_len, decimal, decimal_string, join2, join3, str_bytes};
use vstd::prelude::*;

verus! {

broadcast use {lemma_view, lemma_views_push};

/// What the engine says of a value.
#[derive(Clone, Copy, Debug)]
pub struct V8Traits {
    pub is_undefined: bool,
    pub is_null: bool,
    pub is_boolean: bool,
    pub is_number: bool,
    pub is_big_int: bool,
    pub is_string: bool,
    pub is_function: bool,
    pub is_symbol: bool,
    pub is_uint8_array: bool,
    pub is_array_buffer: bool,
    pub is_array: bool,
    pub is_set: bool,
    pub is_date: bool,
    pub is_object: bool,
}

/// How a value is read.
#[derive(Clone, Copy, Debug, PartialEq, Eq, Structural)]
pub enum V8Kind {
    Undefined,
    Null,
    Boolean,
    Number,
    BigInt,
    Text,
    Function,
    Symbol,
    ByteArray,
    ArrayBuffer,
    Array,
    JsSet,
    Date,
    /// A stream if it is a `ReadableStream`, otherwise an object by its properties.
    Object,
    /// By its text.
    Other,
}

/// A value is read as the first thing that it is: a function is an object too, and so
/// are an array, a set and a date.
pub open spec fn kind_of(t: V8Traits) -> V8Kind {
    if t.is_undefined {
        V8Kind::Undefined
    } else if t.is_null {
        V8Kind::Null
    } else if t.is_boolean {
        V8Kind::Boolean
    } else if t.is_number {
        V8Kind::Number
    } else if t.is_big_int {
        V8Kind::BigInt
    } else if t.is_string {
        V8Kind::Text
    } else if t.is_function {
        V8Kind::Function
    } else if t.is_symbol {
        V8Kind::Symbol
    } else if t.is_uint8_array {
        V8Kind::ByteArray
    } else if t.is_array_buffer {
        V8Kind::ArrayBuffer
    } else if t.is_array {
        V8Kind::Array
    } else if t.is_set {
        V8Kind::JsSet
    } else if t.is_date {
        V8Kind::Date
    } else if t.is_object {
        V8Kind::Object
    } else {
        V8Kind::Other
    }
}

/// How a value is read.
pub fn classify(t: V8Traits) -> (kind: V8Kind)
    ensures
        kind == kind_of(t),
        kind == V8Kind::Object ==> t.is_object && !t.is_function && !t.is_uint8_array
            && !t.is_array_buffer && !t.is_array && !t.is_set && !t.is_date,
        kind == V8Kind::Date ==> t.is_date,
{
    if t.is_undefined {
        V8Kind::Undefined
    } else if t.is_null {
        V8Kind::Null
    } else if t.is_boolean {
        V8Kind::Boolean
    } else if t.is_number {
        V8Kind::Number
    } else if t.is_big_int {
        V8Kind::BigInt
    } else if t.is_string {
        V8Kind::Text
    } else if t.is_function {
        V8Kind::Function
    } else if t.is_symbol {
        V8Kind::Symbol
    } else if t.is_uint8_array {
        V8Kind::ByteArray
    } else if t.is_array_buffer {
        V8Kind::ArrayBuffer
    } else if t.is_array {
        V8Kind::Array
    } else if t.is_set {
        V8Kind::JsSet
    } else if t.is_date {
        V8Kind::Date
    } else if t.is_object {
        V8Kind::Object
    } else {
        V8Kind::Other
    }
}

/// What is read of one engine value. Containers are told apart by an identity
/// that two values share exactly when they are strictly equal.
#[derive(Debug)]
pub enum V8Reading {
    Undefined,
    Null,
    Boolean(bool),
    Number(Double),
    /// A big integer: its low 64 bits, whether they are all of it, and its decimal
    /// text if that could be had.
    BigInt { value: i64, lossless: bool, text: Option<String> },
    Text(String),
    /// A function, by the slot of its handle.
    Function { slot: u64 },
    Symbol,
    /// A `Uint8Array` or `ArrayBuffer`, with its length in bytes.
    Buffer { length: usize },
    Array { identity: usize, length: usize },
    JsSet { identity: usize, length: usize },
    /// A date by its epoch milliseconds.
    Date(Double),
    /// A `ReadableStream`, by the slot of its handle.
    Stream { slot: u64 },
    /// Any other object, by the slot of its handle, with the number of its own
    /// properties if that could be had.
    Object { identity: usize, slot: u64, properties: Option<usize> },
    /// A value of another kind, by its text if that could be had.
    Other(Option<String>),
    /// Reading the value failed.
    Failed(String),
}

/// What is read next, once the importer asked for it.
#[derive(Debug)]
pub enum V8Event {
    /// The element that was asked for.
    Element(V8Reading),
    /// The element could not be had.
    FailedElement,
    /// The property that was asked for.
    Property { key: String, value: V8Reading },
    /// The property's name could not be had.
    FailedName,
    /// The property's name has no text.
    FailedKey,
    /// The property's value could not be had.
    FailedProperty { key: String },
    /// The bytes that were asked for.
    Bytes(Vec<u8>),
}

/// What to do after an event.
#[derive(Debug)]
pub enum V8Step {
    /// Read the element at `index` of the innermost container.
    ReadElement { index: usize },
    /// Read the property at `index` of the innermost container.
    ReadProperty { index: usize },
    /// Read the bytes of the buffer.
    ReadBytes { length: usize },
    /// The value is complete.
    Done(JSValue),
    /// The conversion failed.
    Failed(RuntimeError),
}

#[verifier::ext_equal]
pub enum V8ReadingView {
    Undefined,
    Null,
    Boolean(bool),
    Number(u64),
    BigInt(i64, bool, Option<Seq<char>>),
    Text(Seq<char>),
    Function(u64),
    Symbol,
    Buffer(usize),
    Array(usize, usize),
    JsSet(usize, usize),
    Date(u64),
    Stream(u64),
    Object(usize, u64, Option<usize>),
    Other(Option<Seq<char>>),
    Failed(Seq<char>),
}

#[verifier::ext_equal]
pub enum V8EventView {
    Element(V8ReadingView),
    FailedElement,
    Property(Seq<char>, V8ReadingView),
    FailedName,
    FailedKey,
    FailedProperty(Seq<char>),
    Bytes(Seq<u8>),
}

#[verifier::ext_equal]
pub enum V8StepView {
    ReadElement(int),
    ReadProperty(int),
    ReadBytes(int),
    Done(JsView),
    Failed(ErrorView),
}

impl View for V8Reading {
    type V = V8ReadingView;

    open spec fn view(&self) -> V8ReadingView {
        match *self {
            V8Reading::Undefined => V8ReadingView::Undefined,
            V8Reading::Null => V8ReadingView::Null,
            V8Reading::Boolean(b) => V8ReadingView::Boolean(b),
            V8Reading::Number(d) => V8ReadingView::Number(d.bits),
            V8Reading::BigInt { value, lossless, text } => V8ReadingView::BigInt(
                value,
                lossless,
                crate::error::text_view(text),
            ),
            V8Reading::Text(s) => V8ReadingView::Text(s@),
            V8Reading::Function { slot } => V8ReadingView::Function(slot),
            V8Reading::Symbol => V8ReadingView::Symbol,
            V8Reading::Buffer { length } => V8ReadingView::Buffer(length),
            V8Reading::Array { identity, length } => V8ReadingView::Array(identity, length),
            V8Reading::JsSet { identity, length } => V8ReadingView::JsSet(identity, length),
            V8Reading::Date(d) => V8ReadingView::Date(d.bits),
            V8Reading::Stream { slot } => V8ReadingView::Stream(slot),
            V8Reading::Object { identity, slot, properties } => V8ReadingView::Object(
                identity,
                slot,
                properties,
            ),
            V8Reading::Other(text) => V8ReadingView::Other(crate::error::text_view(text)),
            V8Reading::Failed(text) => V8ReadingView::Failed(text@),
        }
    }
}

impl View for V8Event {
    type V = V8EventView;

    open spec fn view(&self) -> V8EventView {
        match *self {
            V8Event::Element(reading) => V8EventView::Element(reading@),
            V8Event::FailedElement => V8EventView::FailedElement,
            V8Event::Property { key, value } => V8EventView::Property(key@, value@),
            V8Event::FailedName => V8EventView::FailedName,
            V8Event::FailedKey => V8EventView::FailedKey,
            V8Event::FailedProperty { key } => V8EventView::FailedProperty(key@),
            V8Event::Bytes(bytes) => V8EventView::Bytes(bytes@),
        }
    }
}

impl V8Step {
    pub open spec fn view(self) -> V8StepView {
        match self {
            V8Step::ReadElement { index } => V8StepView::ReadElement(index as int),
            V8Step::ReadProperty { index } => V8StepView::ReadProperty(index as int),
            V8Step::ReadBytes { length } => V8StepView::ReadBytes(length as int),
            V8Step::Done(value) => V8StepView::Done(value.view()),
            V8Step::Failed(err) => V8StepView::Failed(err@),
        }
    }
}

/// What is being read into a frame.
#[derive(Clone, Copy, Debug, PartialEq, Eq, Structural)]
pub enum V8Container {
    Array,
    JsSet,
    Object,
    Buffer,
}

/// A container whose contents are being read.
#[verifier::ext_equal]
pub struct V8FrameView {
    pub kind: V8Container,
    pub identity: usize,
    /// The handle of an object, which is the receiver of its methods.
    pub slot: u64,
    /// The number of elements, properties or bytes.
    pub length: usize,
    /// How many of them were read.
    pub read: nat,
    pub items: Seq<JsView>,
    pub entries: Seq<(Seq<char>, JsView)>,
    /// The key whose value is being read (object).
    pub key: Seq<char>,
}

/// Everything that a conversion changes.
#[verifier::ext_equal]
pub struct ImportState {
    pub frames: Seq<V8FrameView>,
    pub limits: LimitState,
    pub functions: FunctionsView,
    pub streams: JsStreamsView,
}

/// A container of which nothing was read yet.
pub open spec fn open_frame(
    kind: V8Container,
    identity: usize,
    slot: u64,
    length: usize,
) -> V8FrameView {
    V8FrameView {
        kind,
        identity,
        slot,
        length,
        read: 0,
        items: Seq::empty(),
        entries: Seq::empty(),
        key: Seq::empty(),
    }
}

/// A container with this identity is being read.
pub open spec fn on_path(frames: Seq<V8FrameView>, identity: usize) -> bool {
    exists|i: int|
        0 <= i < frames.len() && (#[trigger] frames[i]).identity == identity && frames[i].kind
            != V8Container::Buffer
}

/// The container with one more value.
pub open spec fn frame_with(frame: V8FrameView, value: JsView) -> V8FrameView {
    match frame.kind {
        V8Container::Object => V8FrameView {
            entries: put(frame.entries, frame.key, value),
            read: frame.read + 1,
            ..frame
        },
        _ => V8FrameView { items: frame.items.push(value), read: frame.read + 1, ..frame },
    }
}

/// The value that a container amounts to.
pub open spec fn frame_value(frame: V8FrameView) -> JsView {
    match frame.kind {
        V8Container::Array => JsView::Array(frame.items),
        V8Container::JsSet => JsView::JsSet(frame.items),
        V8Container::Object => JsView::Object(frame.entries),
        V8Container::Buffer => JsView::Undefined,
    }
}

/// What is read next of a container that is not complete.
pub open spec fn next_read(frame: V8FrameView) -> V8StepView {
    match frame.kind {
        V8Container::Object => V8StepView::ReadProperty(frame.read as int),
        V8Container::Buffer => V8StepView::ReadBytes(frame.length as int),
        _ => V8StepView::ReadElement(frame.read as int),
    }
}

/// A completed value goes into the innermost container; that container's level is
/// left, and it goes on outward, once it is complete itself. Without a container
/// the value is the result.
pub open spec fn deliver(frames: Seq<V8FrameView>, limits: LimitState, value: JsView) -> (
    Seq<V8FrameView>,
    LimitState,
    V8StepView,
)
    decreases frames.len(),
{
    if frames.len() == 0 {
        (frames, limits, V8StepView::Done(value))
    } else {
        let frame = frame_with(frames.last(), value);
        if frame.read >= frame.length {
            deliver(frames.drop_last(), limits.exited(), frame_value(frame))
        } else {
            (frames.drop_last().push(frame), limits, next_read(frame))
        }
    }
}

/// The state and step after a value was completed and its level left.
pub open spec fn completed(state: ImportState, value: JsView) -> (ImportState, V8StepView) {
    let (frames, limits, step) = deliver(state.frames, state.limits.exited(), value);
    (ImportState { frames, limits, ..state }, step)
}

/// The state and step after a failure.
pub open spec fn failed(state: ImportState, text: Seq<char>) -> (ImportState, V8StepView) {
    (state, V8StepView::Failed(ErrorView::Internal(text)))
}

/// The value of something that is no container, once metered.
pub open spec fn settled(
    state: ImportState,
    outcome: (Result<JsView, Seq<char>>, LimitState),
) -> (ImportState, V8StepView) {
    let counted = ImportState { limits: outcome.1, ..state };
    match outcome.0 {
        Ok(value) => completed(counted, value),
        Err(text) => failed(counted, text),
    }
}

/// The state and step after a container was accepted: it is complete at once when
/// it is empty.
pub open spec fn opened(state: ImportState, frame: V8FrameView) -> (ImportState, V8StepView) {
    if frame.kind != V8Container::Buffer && frame.length == 0 {
        completed(state, frame_value(frame))
    } else {
        (ImportState { frames: state.frames.push(frame), ..state }, next_read(frame))
    }
}

/// The value of a number: an integer where it is exactly an `i64`, otherwise a float.
/// Nothing is lost: a negative zero and 2^63 stay floats.
pub open spec fn number_value(bits: u64) -> JsView {
    let d = Double { bits };
    if d.exact_i64() {
        JsView::Int(d.trunc() as i64)
    } else {
        JsView::Float(bits)
    }
}

/// What follows once a value was read within its level.
pub open spec fn accept_inner(
    state: ImportState,
    reading: V8ReadingView,
    receiver: Option<u64>,
) -> (ImportState, V8StepView) {
    match reading {
        V8ReadingView::Undefined => settled(
            state,
            metered(state.limits, 0, Ok(JsView::Undefined)),
        ),
        V8ReadingView::Null => settled(state, metered(state.limits, 4, Ok(JsView::Null))),
        V8ReadingView::Boolean(b) => settled(
            state,
            metered(state.limits, 5, Ok(JsView::Bool(b))),
        ),
        V8ReadingView::Number(bits) => settled(
            state,
            metered(
                state.limits,
                if number_value(bits) is Int {
                    20
                } else {
                    24
                },
                Ok(number_value(bits)),
            ),
        ),
        V8ReadingView::BigInt(value, lossless, text) => if lossless {
            settled(state, metered(state.limits, 20, Ok(JsView::Int(value))))
        } else {
            match text {
                None => failed(state, "Failed to stringify BigInt"@),
                Some(t) => match parse_decimal(t) {
                    None => failed(state, "Failed to parse BigInt literal"@),
                    Some(i) => settled(
                        state,
                        metered(state.limits, byte_len(t), Ok(JsView::BigInt(i))),
                    ),
                },
            }
        },
        V8ReadingView::Text(s) => settled(
            state,
            metered(state.limits, byte_len(s), Ok(JsView::String(s))),
        ),
        V8ReadingView::Function(slot) => {
            let stored = ImportState {
                functions: state.functions.with(StoredFunction { function: slot, receiver }),
                ..state
            };
            settled(
                stored,
                metered(state.limits, 8, Ok(JsView::Function(state.functions.next_id))),
            )
        },
        V8ReadingView::Symbol => failed(
            ImportState { limits: state.limits.exited(), ..state },
            "Cannot serialize V8 symbol"@,
        ),
        V8ReadingView::Buffer(length) => match metered(state.limits, length as nat, Ok(())) {
            (Err(text), limits) => failed(ImportState { limits, ..state }, text),
            (Ok(_), limits) => opened(
                ImportState { limits, ..state },
                open_frame(V8Container::Buffer, 0, 0, length),
            ),
        },
        V8ReadingView::Array(identity, length) => if on_path(state.frames, identity) {
            failed(state, "Cannot serialize circular reference"@)
        } else {
            match metered_twice(
                state.limits,
                16,
                saturating_product(length as nat, word_bytes()),
                Ok(()),
            ) {
                (Err(text), limits) => failed(ImportState { limits, ..state }, text),
                (Ok(_), limits) => opened(
                    ImportState { limits, ..state },
                    open_frame(V8Container::Array, identity, 0, length),
                ),
            }
        },
        V8ReadingView::JsSet(identity, length) => if on_path(state.frames, identity) {
            failed(state, "Cannot serialize circular reference"@)
        } else {
            match metered_twice(
                state.limits,
                24,
                saturating_product(length as nat, word_bytes()),
                Ok(()),
            ) {
                (Err(text), limits) => failed(ImportState { limits, ..state }, text),
                (Ok(_), limits) => opened(
                    ImportState { limits, ..state },
                    open_frame(V8Container::JsSet, identity, 0, length),
                ),
            }
        },
        V8ReadingView::Date(bits) => if !(Double { bits }).within_i64_span() {
            failed(state, "Date value out of range"@)
        } else {
            settled(
                state,
                metered(
                    state.limits,
                    16,
                    Ok(
                        JsView::Date(
                            clamp(
                                (Double { bits }).rounded(),
                                i64::MIN as int,
                                i64::MAX as int,
                            ) as i64,
                        ),
                    ),
                ),
            )
        },
        V8ReadingView::Stream(slot) => settled(
            ImportState { streams: state.streams.registered(slot), ..state },
            metered(state.limits, 4, Ok(JsView::JsStream(state.streams.next_id))),
        ),
        V8ReadingView::Object(identity, slot, properties) => if on_path(state.frames, identity) {
            failed(state, "Cannot serialize circular reference"@)
        } else {
            match properties {
                None => failed(state, "Failed to get property names"@),
                Some(length) => opened(
                    state,
                    open_frame(V8Container::Object, identity, slot, length),
                ),
            }
        },
        V8ReadingView::Other(text) => match text {
            None => failed(state, "Failed to convert value to string"@),
            Some(s) => settled(state, metered(state.limits, byte_len(s), Ok(JsView::String(s)))),
        },
        V8ReadingView::Failed(text) => failed(state, text),
    }
}

/// What follows once a value was read: its level is entered, then it is metered.
pub open spec fn accept(state: ImportState, reading: V8ReadingView, receiver: Option<u64>) -> (
    ImportState,
    V8StepView,
) {
    let entered = ImportState { limits: state.limits.entered(), ..state };
    match entered.limits.level_refusal() {
        Some(text) => failed(entered, text),
        None => accept_inner(entered, reading, receiver),
    }
}

/// A method keeps its object as `this`; other values have no receiver.
pub open spec fn receiver_of(frame: V8FrameView, value: V8ReadingView) -> Option<u64> {
    if value is Function {
        Some(frame.slot)
    } else {
        None
    }
}

/// What follows an event while a container is being read.
pub open spec fn advance(state: ImportState, event: V8EventView) -> (ImportState, V8StepView) {
    let frame = state.frames.last();
    match event {
        V8EventView::Element(reading) => accept(state, reading, None),
        V8EventView::FailedElement => failed(
            state,
            if frame.kind == V8Container::JsSet {
                "Failed to get Set entry"@
            } else {
                "Failed to get array index "@ + decimal(frame.read)
            },
        ),
        V8EventView::Property(key, reading) => match metered(
            state.limits,
            byte_len(key),
            Ok(()),
        ) {
            (Err(text), limits) => failed(ImportState { limits, ..state }, text),
            (Ok(_), limits) => accept(
                ImportState {
                    frames: state.frames.drop_last().push(V8FrameView { key, ..frame }),
                    limits,
                    ..state
                },
                reading,
                receiver_of(frame, reading),
            ),
        },
        V8EventView::FailedName => failed(state, "Failed to get property name"@),
        V8EventView::FailedKey => failed(state, "Failed to convert key to string"@),
        V8EventView::FailedProperty(key) => failed(
            state,
            "Failed to get property '"@ + key + "'"@,
        ),
        V8EventView::Bytes(bytes) => completed(
            ImportState { frames: state.frames.drop_last(), ..state },
            JsView::Bytes(bytes),
        ),
    }
}

/// The event is one that the innermost container asked for.
pub open spec fn fits(kind: V8Container, event: V8EventView) -> bool {
    match event {
        V8EventView::Element(_) => kind == V8Container::Array || kind == V8Container::JsSet,
        V8EventView::FailedElement => kind == V8Container::Array || kind == V8Container::JsSet,
        V8EventView::Bytes(_) => kind == V8Container::Buffer,
        _ => kind == V8Container::Object,
    }
}

struct V8Frame {
    kind: V8Container,
    identity: usize,
    slot: u64,
    length: usize,
    read: usize,
    items: Vec<JSValue>,
    entries: ObjectMap,
    key: String,
}

impl V8Frame {
    spec fn view(self) -> V8FrameView {
        V8FrameView {
            kind: self.kind,
            identity: self.identity,
            slot: self.slot,
            length: self.length,
            read: self.read as nat,
            items: views(self.items@),
            entries: self.entries@,
            key: self.key@,
        }
    }

    fn next_read(&self) -> (step: V8Step)
        ensures
            step.view() == next_read(self.view()),
    {
        match self.kind {
            V8Container::Object => V8Step::ReadProperty { index: self.read },
            V8Container::Buffer => V8Step::ReadBytes { length: self.length },
            _ => V8Step::ReadElement { index: self.read },
        }
    }

    fn into_value(self) -> (value: JSValue)
        ensures
            value.view() == frame_value(self.view()),
    {
        match self.kind {
            V8Container::Array => JSValue::Array(self.items),
            V8Container::JsSet => JSValue::JsSet(self.items),
            V8Container::Object => JSValue::Object(self.entries),
            V8Container::Buffer => JSValue::Undefined,
        }
    }
}

/// Every frame is an array, a set or an object that is not complete.
pub open spec fn solid(frames: Seq<V8FrameView>) -> bool {
    forall|i: int|
        0 <= i < frames.len() ==> (#[trigger] frames[i]).kind != V8Container::Buffer
            && frames[i].read < frames[i].length
}

/// No frame is complete, and only the innermost can be a buffer.
pub open spec fn ready(frames: Seq<V8FrameView>) -> bool {
    frames.len() == 0 || (solid(frames.drop_last()) && (frames.last().kind == V8Container::Buffer
        || frames.last().read < frames.last().length))
}

proof fn lemma_solid_push(frames: Seq<V8FrameView>, frame: V8FrameView)
    requires
        solid(frames),
        frame.kind == V8Container::Buffer || frame.read < frame.length,
    ensures
        ready(frames.push(frame)),
        frame.kind != V8Container::Buffer ==> solid(frames.push(frame)),
{
    assert(frames.push(frame).drop_last() =~= frames);
}

proof fn lemma_solid_drop_last(frames: Seq<V8FrameView>)
    requires
        solid(frames),
    ensures
        ready(frames),
        frames.len() > 0 ==> solid(frames.drop_last()),
{
    if frames.len() > 0 {
        assert forall|i: int| 0 <= i < frames.drop_last().len() implies (
        #[trigger] frames.drop_last()[i]).kind != V8Container::Buffer && frames.drop_last()[i].read
            < frames.drop_last()[i].length by {
            assert(frames.drop_last()[i] == frames[i]);
        }
        assert(frames.last() == frames[frames.len() - 1]);
    }
}

/// Builds a `JSValue` from what is read of an engine value and its contents.
pub struct V8Importer {
    frames: Vec<V8Frame>,
}

impl View for V8Importer {
    type V = Seq<V8FrameView>;

    closed spec fn view(&self) -> Seq<V8FrameView> {
        self.frames@.map_values(|frame: V8Frame| frame.view())
    }
}

/// The state made of an importer and what it works on.
pub open spec fn import_state(
    importer: V8Importer,
    tracker: LimitTracker,
    functions: FunctionTable,
    streams: JsStreamRegistry,
) -> ImportState {
    ImportState {
        frames: importer@,
        limits: tracker@,
        functions: functions@,
        streams: streams@,
    }
}

/// A failure with an internal error of this text.
fn failure(text: String) -> (step: V8Step)
    ensures
        step.view() == V8StepView::Failed(ErrorView::Internal(text@)),
{
    V8Step::Failed(RuntimeError::internal(text))
}

impl V8Importer {
    pub fn new() -> (importer: V8Importer)
        ensures
            importer@ == Seq::<V8FrameView>::empty(),
            solid(importer@),
    {
        let importer = V8Importer { frames: Vec::new() };
        assert(importer@ == Seq::<V8FrameView>::empty());
        importer
    }

    /// The number of containers that are being read.
    pub fn depth(&self) -> (n: usize)
        ensures
            n == self@.len(),
    {
        self.frames.len()
    }

    /// What the innermost container is, if one is being read.
    pub fn innermost(&self) -> (kind: Option<V8Container>)
        ensures
            kind == if self@.len() > 0 {
                Some(self@.last().kind)
            } else {
                None
            },
    {
        let n: usize = self.frames.len();
        if n == 0 {
            None
        } else {
            assert(self@.last() == self.frames@[n - 1].view());
            Some(self.frames[n - 1].kind)
        }
    }

    fn is_on_path(&self, identity: usize) -> (found: bool)
        ensures
            found == on_path(self@, identity),
    {
        let mut i: usize = 0;
        while i < self.frames.len()
            invariant
                i <= self.frames@.len(),
                forall|k: int|
                    0 <= k < i ==> !((#[trigger] self@[k]).identity == identity && self@[k].kind
                        != V8Container::Buffer),
            decreases self.frames@.len() - i,
        {
            let frame: &V8Frame = &self.frames[i];
            assert(self@[i as int] == frame.view());
            let buffer: bool = match frame.kind {
                V8Container::Buffer => true,
                _ => false,
            };
            if frame.identity == identity && !buffer {
                return true;
            }
            i = i + 1;
        }
        false
    }

    /// A completed value goes into the innermost container, and that one outward
    /// once it is complete itself.
    fn deliver(&mut self, tracker: &mut LimitTracker, value: JSValue) -> (step: V8Step)
        requires
            solid(old(self)@),
        ensures
            (final(self)@, final(tracker)@, step.view()) == deliver(
                old(self)@,
                old(tracker)@,
                value.view(),
            ),
            solid(final(self)@),
        decreases old(self)@.len(),
    {
        let ghost before = self@;
        match self.frames.pop() {
            None => {
                assert(self@ =~= before);
                V8Step::Done(value)
            },
            Some(frame) => {
                let mut frame: V8Frame = frame;
                let ghost inner = frame.view();
                assert(inner == before[before.len() - 1]);
                assert(self@ =~= before.drop_last());
                proof {
                    lemma_solid_drop_last(before);
                }
                match frame.kind {
                    V8Container::Object => {
                        let key: String = frame.key.clone();
                        frame.entries.insert(key, value);
                    },
                    _ => {
                        frame.items.push(value);
                    },
                }
                frame.read = frame.read + 1;
                assert(frame.view() == frame_with(inner, value.view()));
                if frame.read >= frame.length {
                    tracker.exit();
                    let done: JSValue = frame.into_value();
                    self.deliver(tracker, done)
                } else {
                    let step: V8Step = frame.next_read();
                    let ghost outer = self@;
                    proof {
                        lemma_solid_push(outer, frame.view());
                    }
                    self.frames.push(frame);
                    assert(self@ =~= outer.push(frame.view()));
                    step
                }
            },
        }
    }

    /// Leaves the level of a completed value and passes the value on.
    fn complete(&mut self, tracker: &mut LimitTracker, value: JSValue) -> (step: V8Step)
        requires
            solid(old(self)@),
        ensures
            (final(self)@, final(tracker)@, step.view()) == deliver(
                old(self)@,
                old(tracker)@.exited(),
                value.view(),
            ),
            solid(final(self)@),
    {
        tracker.exit();
        self.deliver(tracker, value)
    }

    /// Opens a container; an empty one is complete at once.
    fn open(
        &mut self,
        tracker: &mut LimitTracker,
        kind: V8Container,
        identity: usize,
        slot: u64,
        length: usize,
    ) -> (step: V8Step)
        requires
            solid(old(self)@),
        ensures
            ({
                let frame = open_frame(kind, identity, slot, length);
                if kind != V8Container::Buffer && length == 0 {
                    (final(self)@, final(tracker)@, step.view()) == deliver(
                        old(self)@,
                        old(tracker)@.exited(),
                        frame_value(frame),
                    )
                } else {
                    &&& final(self)@ == old(self)@.push(frame)
                    &&& final(tracker)@ == old(tracker)@
                    &&& step.view() == next_read(frame)
                }
            }),
            ready(final(self)@),
    {
        let frame = V8Frame {
            kind,
            identity,
            slot,
            length,
            read: 0,
            items: Vec::new(),
            entries: ObjectMap::new(),
            key: String::new(),
        };
        assert(frame.view() == open_frame(kind, identity, slot, length));
        let buffer: bool = match kind {
            V8Container::Buffer => true,
            _ => false,
        };
        if !buffer && length == 0 {
            let value: JSValue = frame.into_value();
            let step: V8Step = self.complete(tracker, value);
            proof {
                lemma_solid_drop_last(self@);
            }
            step
        } else {
            let step: V8Step = frame.next_read();
            let ghost before = self@;
            proof {
                lemma_solid_push(before, frame.view());
            }
            self.frames.push(frame);
            assert(self@ =~= before.push(frame.view()));
            step
        }
    }

    /// Tells what was read of the value to be converted, or of a part of it.
    ///
    /// `receiver` is the handle of the object that a function was read from.
    pub fn accept(
        &mut self,
        tracker: &mut LimitTracker,
        functions: &mut FunctionTable,
        streams: &mut JsStreamRegistry,
        reading: V8Reading,
        receiver: Option<u64>,
    ) -> (step: V8Step)
        requires
            solid(old(self)@),
        ensures
            (
                import_state(*final(self), *final(tracker), *final(functions), *final(streams)),
                step.view(),
            ) == accept(
                import_state(*old(self), *old(tracker), *old(functions), *old(streams)),
                reading@,
                receiver,
            ),
            ready(final(self)@),
    {
        proof {
            lemma_solid_drop_last(self@);
        }
        match enter(tracker) {
            Ok(()) => {},
            Err(text) => return failure(text),
        }
        match reading {
            V8Reading::Undefined => self.metered_value(tracker, 0, JSValue::Undefined),
            V8Reading::Null => self.metered_value(tracker, 4, JSValue::Null),
            V8Reading::Boolean(b) => self.metered_value(tracker, 5, JSValue::Bool(b)),
            V8Reading::Number(d) => match d.as_i64() {
                Some(i) => self.metered_value(tracker, 20, JSValue::Int(i)),
                None => self.metered_value(tracker, 24, JSValue::Float(d)),
            },
            V8Reading::BigInt { value, lossless, text } => if lossless {
                self.metered_value(tracker, 20, JSValue::Int(value))
            } else {
                match text {
                    None => failure("Failed to stringify BigInt".to_owned()),
                    Some(t) => match JsBigInt::parse(&t) {
                        None => failure("Failed to parse BigInt literal".to_owned()),
                        Some(parsed) => self.metered_value(
                            tracker,
                            str_bytes(&t),
                            JSValue::BigInt(parsed),
                        ),
                    },
                }
            },
            V8Reading::Text(s) => {
                let bytes: usize = str_bytes(&s);
                self.metered_value(tracker, bytes, JSValue::String(s))
            },
            V8Reading::Function { slot } => {
                let id: u32 = functions.store(slot, receiver);
                self.metered_value(tracker, 8, JSValue::Function { id })
            },
            V8Reading::Symbol => {
                tracker.exit();
                failure("Cannot serialize V8 symbol".to_owned())
            },
            V8Reading::Buffer { length } => match charge(tracker, length) {
                Ok(()) => self.open(tracker, V8Container::Buffer, 0, 0, length),
                Err(text) => failure(text),
            },
            V8Reading::Array { identity, length } => self.open_metered(
                tracker,
                V8Container::Array,
                16,
                identity,
                length,
            ),
            V8Reading::JsSet { identity, length } => self.open_metered(
                tracker,
                V8Container::JsSet,
                24,
                identity,
                length,
            ),
            V8Reading::Date(d) => if !d.is_within_i64_span() {
                failure("Date value out of range".to_owned())
            } else {
                self.metered_value(tracker, 16, JSValue::Date(d.round_to_i64()))
            },
            V8Reading::Stream { slot } => {
                let id: u32 = streams.register_stream(slot);
                self.metered_value(tracker, 4, JSValue::JsStream { id })
            },
            V8Reading::Object { identity, slot, properties } => if self.is_on_path(identity) {
                failure("Cannot serialize circular reference".to_owned())
            } else {
                match properties {
                    None => failure("Failed to get property names".to_owned()),
                    Some(length) => self.open(
                        tracker,
                        V8Container::Object,
                        identity,
                        slot,
                        length,
                    ),
                }
            },
            V8Reading::Other(text) => match text {
                None => failure("Failed to convert value to string".to_owned()),
                Some(s) => {
                    let bytes: usize = str_bytes(&s);
                    self.metered_value(tracker, bytes, JSValue::String(s))
                },
            },
            V8Reading::Failed(text) => failure(text),
        }
    }

    /// Counts the bytes of a value that is no container and passes it on.
    fn metered_value(&mut self, tracker: &mut LimitTracker, bytes: usize, value: JSValue) -> (step:
        V8Step)
        requires
            solid(old(self)@),
        ensures
            match metered(old(tracker)@, bytes as nat, Ok(())) {
                (Ok(_), counted) => (final(self)@, final(tracker)@, step.view()) == deliver(
                    old(self)@,
                    counted.exited(),
                    value.view(),
                ),
                (Err(text), counted) => final(self)@ == old(self)@ && final(tracker)@ == counted
                    && step.view() == V8StepView::Failed(ErrorView::Internal(text)),
            },
            ready(final(self)@),
    {
        proof {
            lemma_solid_drop_last(self@);
        }
        match charge(tracker, bytes) {
            Ok(()) => {
                let step: V8Step = self.complete(tracker, value);
                proof {
                    lemma_solid_drop_last(self@);
                }
                step
            },
            Err(text) => failure(text),
        }
    }

    /// Opens an array or a set unless it is its own ancestor, once its length was
    /// metered.
    fn open_metered(
        &mut self,
        tracker: &mut LimitTracker,
        kind: V8Container,
        header: usize,
        identity: usize,
        length: usize,
    ) -> (step: V8Step)
        requires
            solid(old(self)@),
            kind != V8Container::Buffer,
        ensures
            if on_path(old(self)@, identity) {
                &&& final(self)@ == old(self)@
                &&& final(tracker)@ == old(tracker)@
                &&& step.view() == V8StepView::Failed(
                    ErrorView::Internal("Cannot serialize circular reference"@),
                )
            } else {
                match metered_twice(
                    old(tracker)@,
                    header as nat,
                    saturating_product(length as nat, word_bytes()),
                    Ok(()),
                ) {
                    (Err(text), counted) => final(self)@ == old(self)@ && final(tracker)@
                        == counted && step.view() == V8StepView::Failed(ErrorView::Internal(text)),
                    (Ok(_), counted) => if length == 0 {
                        (final(self)@, final(tracker)@, step.view()) == deliver(
                            old(self)@,
                            counted.exited(),
                            frame_value(open_frame(kind, identity, 0, length)),
                        )
                    } else {
                        &&& final(self)@ == old(self)@.push(open_frame(kind, identity, 0, length))
                        &&& final(tracker)@ == counted
                        &&& step.view() == next_read(open_frame(kind, identity, 0, length))
                    },
                }
            },
            ready(final(self)@),
    {
        proof {
            lemma_solid_drop_last(self@);
        }
        if self.is_on_path(identity) {
            return failure("Cannot serialize circular reference".to_owned());
        }
        match charge_twice(tracker, header, slot_bytes(length, false)) {
            Ok(()) => self.open(tracker, kind, identity, 0, length),
            Err(text) => failure(text),
        }
    }

    /// Tells what was read next of the innermost container.
    pub fn feed(
        &mut self,
        tracker: &mut LimitTracker,
        functions: &mut FunctionTable,
        streams: &mut JsStreamRegistry,
        event: V8Event,
    ) -> (step: V8Step)
        requires
            ready(old(self)@),
            old(self)@.len() > 0,
            fits(old(self)@.last().kind, event@),
        ensures
            (
                import_state(*final(self), *final(tracker), *final(functions), *final(streams)),
                step.view(),
            ) == advance(
                import_state(*old(self), *old(tracker), *old(functions), *old(streams)),
                event@,
            ),
            ready(final(self)@),
    {
        let ghost before = self@;
        proof {
            if before.last().kind != V8Container::Buffer {
                lemma_solid_push(before.drop_last(), before.last());
                assert(before.drop_last().push(before.last()) =~= before);
            }
        }
        match event {
            V8Event::Element(reading) => self.accept(tracker, functions, streams, reading, None),
            V8Event::FailedElement => {
                let n: usize = self.frames.len();
                let frame: &V8Frame = &self.frames[n - 1];
                assert(before.last() == frame.view());
                match frame.kind {
                    V8Container::JsSet => failure("Failed to get Set entry".to_owned()),
                    _ => failure(
                        join2("Failed to get array index ", &decimal_string(frame.read as u64)),
                    ),
                }
            },
            V8Event::Property { key, value } => {
                match charge(tracker, str_bytes(&key)) {
                    Ok(()) => {},
                    Err(text) => return failure(text),
                }
                let slot: u64 = self.set_key(key);
                let receiver: Option<u64> = match &value {
                    V8Reading::Function { .. } => Some(slot),
                    _ => None,
                };
                self.accept(tracker, functions, streams, value, receiver)
            },
            V8Event::FailedName => failure("Failed to get property name".to_owned()),
            V8Event::FailedKey => failure("Failed to convert key to string".to_owned()),
            V8Event::FailedProperty { key } => failure(
                join3("Failed to get property '", &key, "'"),
            ),
            V8Event::Bytes(bytes) => {
                let _ = self.frames.pop();
                assert(self@ =~= before.drop_last());
                let step: V8Step = self.complete(tracker, JSValue::Bytes(bytes));
                proof {
                    lemma_solid_drop_last(self@);
                }
                step
            },
        }
    }

    /// Notes the key whose value comes next; returns the object's handle.
    fn set_key(&mut self, key: String) -> (slot: u64)
        requires
            solid(old(self)@),
            old(self)@.len() > 0,
        ensures
            final(self)@ == old(self)@.drop_last().push(
                V8FrameView { key: key@, ..old(self)@.last() },
            ),
            slot == old(self)@.last().slot,
            solid(final(self)@),
    {
        let ghost before = self@;
        match self.frames.pop() {
            Some(frame) => {
                let mut frame: V8Frame = frame;
                assert(frame.view() == before.last());
                assert(self@ =~= before.drop_last());
                proof {
                    lemma_solid_drop_last(before);
                }
                frame.key = key;
                let slot: u64 = frame.slot;
                let ghost outer = self@;
                proof {
                    assert(before[before.len() - 1] == before.last());
                    lemma_solid_push(outer, frame.view());
                }
                self.frames.push(frame);
                assert(self@ =~= outer.push(frame.view()));
                slot
            },
            None => vstd::pervasive::unreached(),
        }
    }
}

} // verus!
