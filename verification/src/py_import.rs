//! Reading Python objects into `JSValue`.
//!
//! The interpreter is asked about one object at a time. [`PyImporter`] is told
//! what was read, meters it, builds the value and says what to read next; so
//! nothing of a container is read before the limits allow it.

use crate::bigint::{magnitude_len, JsBigInt};
use crate::conversion::{charge, charge_twice, enter, metered, metered_twice};
use crate::double::{clamp, Double};
use crate::js_value::{
    lemma_view, lemma_views_push, put, views, JSValue, JsView, ObjectMap,
};
use crate::limits::{
    byte_limit_message, byte_limit_text, saturating_product, slot_bytes, word_bytes, LimitState,
    LimitTracker, SerializationLimits,
};
use crate::proxies::{transferred_function, transferred_stream, JsFunction, PyStreamSource};
use crate::text::{byte_len, join2, str_bytes};
use vstd::prelude::*;

verus! {

broadcast use {lemma_view, lemma_views_push};

/// What an object is tried to be.
#[derive(Clone, Copy, Debug, PartialEq, Eq, Structural)]
pub enum PyProbe {
    NoneValue,
    Undefined,
    StreamSource,
    Bytes,
    ByteArray,
    MemoryView,
    List,
    Dict,
    PySet,
    FrozenSet,
    DateTime,
    Bool,
    Int,
    BigInt,
    Float,
    Str,
    Function,
}

/// The order in which an object is tried: a boolean comes before an integer, which it
/// is too, and an integer before a float.
pub open spec fn probe_order() -> Seq<PyProbe> {
    seq![
        PyProbe::NoneValue,
        PyProbe::Undefined,
        PyProbe::StreamSource,
        PyProbe::Bytes,
        PyProbe::ByteArray,
        PyProbe::MemoryView,
        PyProbe::List,
        PyProbe::Dict,
        PyProbe::PySet,
        PyProbe::FrozenSet,
        PyProbe::DateTime,
        PyProbe::Bool,
        PyProbe::Int,
        PyProbe::BigInt,
        PyProbe::Float,
        PyProbe::Str,
        PyProbe::Function,
    ]
}

/// What an object is tried to be at this step; `None` when there is nothing more to
/// try, and the object is of no supported type.
pub fn probe_at(step: usize) -> (probe: Option<PyProbe>)
    ensures
        probe == if step < probe_order().len() {
            Some(probe_order()[step as int])
        } else {
            None
        },
{
    match step {
        0 => Some(PyProbe::NoneValue),
        1 => Some(PyProbe::Undefined),
        2 => Some(PyProbe::StreamSource),
        3 => Some(PyProbe::Bytes),
        4 => Some(PyProbe::ByteArray),
        5 => Some(PyProbe::MemoryView),
        6 => Some(PyProbe::List),
        7 => Some(PyProbe::Dict),
        8 => Some(PyProbe::PySet),
        9 => Some(PyProbe::FrozenSet),
        10 => Some(PyProbe::DateTime),
        11 => Some(PyProbe::Bool),
        12 => Some(PyProbe::Int),
        13 => Some(PyProbe::BigInt),
        14 => Some(PyProbe::Float),
        15 => Some(PyProbe::Str),
        16 => Some(PyProbe::Function),
        _ => None,
    }
}

/// The kinds of Python containers that are converted.
#[derive(Clone, Copy, Debug, PartialEq, Eq, Structural)]
pub enum PyContainer {
    List,
    Dict,
    PySet,
    FrozenSet,
}

/// What is read of one Python object.
#[derive(Debug)]
pub enum PyReading {
    NoneValue,
    /// The `undefined` singleton.
    Undefined,
    StreamSource(PyStreamSource),
    /// The contents of a bytes, bytearray or memoryview object.
    Bytes(Vec<u8>),
    /// A container, told apart from others by its address, with its length.
    Container { kind: PyContainer, identity: usize, len: usize },
    /// A datetime: its timestamp in seconds, and that times one thousand.
    DateTime { timestamp: Double, epoch_ms: Double },
    /// A datetime whose timestamp could not be had.
    FailedDateTime(String),
    Bool(bool),
    Int(i64),
    BigInt(JsBigInt),
    Float(Double),
    Str(String),
    /// A function proxy, and whether the runtime behind it was shut down.
    Function(JsFunction, bool),
    /// An object of a type that has no counterpart.
    Unsupported,
    /// Reading the object raised.
    Failed(String),
}

/// What is read next, once the importer asked for it.
#[derive(Debug)]
pub enum PyEvent {
    /// The next item of a list or set.
    Item(PyReading),
    /// The next entry of a dictionary.
    Entry { key: String, value: PyReading },
    /// The next entry of a dictionary, whose key is not a string.
    FailedKey(String),
    /// The innermost container has no more items.
    End,
}

/// What to do after an event.
#[derive(Debug)]
pub enum PyStep {
    /// Read the next item or entry of the innermost container.
    More,
    /// The value is complete.
    Done(JSValue),
    /// The conversion failed.
    Failed(String),
}

#[verifier::ext_equal]
pub enum PyReadingView {
    NoneValue,
    Undefined,
    StreamSource(PyStreamSource),
    Bytes(Seq<u8>),
    Container(PyContainer, usize, usize),
    DateTime(u64, u64),
    FailedDateTime(Seq<char>),
    Bool(bool),
    Int(i64),
    BigInt(int),
    Float(u64),
    Str(Seq<char>),
    Function(JsFunction, bool),
    Unsupported,
    Failed(Seq<char>),
}

#[verifier::ext_equal]
pub enum PyEventView {
    Item(PyReadingView),
    Entry(Seq<char>, PyReadingView),
    FailedKey(Seq<char>),
    End,
}

#[verifier::ext_equal]
pub enum PyStepView {
    More,
    Done(JsView),
    Failed(Seq<char>),
}

impl View for PyReading {
    type V = PyReadingView;

    open spec fn view(&self) -> PyReadingView {
        match *self {
            PyReading::NoneValue => PyReadingView::NoneValue,
            PyReading::Undefined => PyReadingView::Undefined,
            PyReading::StreamSource(state) => PyReadingView::StreamSource(state),
            PyReading::Bytes(bytes) => PyReadingView::Bytes(bytes@),
            PyReading::Container { kind, identity, len } => PyReadingView::Container(
                kind,
                identity,
                len,
            ),
            PyReading::DateTime { timestamp, epoch_ms } => PyReadingView::DateTime(
                timestamp.bits,
                epoch_ms.bits,
            ),
            PyReading::FailedDateTime(text) => PyReadingView::FailedDateTime(text@),
            PyReading::Bool(b) => PyReadingView::Bool(b),
            PyReading::Int(i) => PyReadingView::Int(i),
            PyReading::BigInt(value) => PyReadingView::BigInt(value@),
            PyReading::Float(d) => PyReadingView::Float(d.bits),
            PyReading::Str(s) => PyReadingView::Str(s@),
            PyReading::Function(function, shut_down) => PyReadingView::Function(
                function,
                shut_down,
            ),
            PyReading::Unsupported => PyReadingView::Unsupported,
            PyReading::Failed(text) => PyReadingView::Failed(text@),
        }
    }
}

impl View for PyEvent {
    type V = PyEventView;

    open spec fn view(&self) -> PyEventView {
        match *self {
            PyEvent::Item(reading) => PyEventView::Item(reading@),
            PyEvent::Entry { key, value } => PyEventView::Entry(key@, value@),
            PyEvent::FailedKey(text) => PyEventView::FailedKey(text@),
            PyEvent::End => PyEventView::End,
        }
    }
}

impl PyStep {
    pub open spec fn view(self) -> PyStepView {
        match self {
            PyStep::More => PyStepView::More,
            PyStep::Done(value) => PyStepView::Done(value.view()),
            PyStep::Failed(text) => PyStepView::Failed(text@),
        }
    }
}

/// A container whose items are being read.
#[verifier::ext_equal]
pub struct PyFrameView {
    pub kind: PyContainer,
    pub identity: usize,
    /// The items so far (list and sets).
    pub items: Seq<JsView>,
    /// The entries so far (dictionary).
    pub entries: Seq<(Seq<char>, JsView)>,
    /// The key whose value is being read (dictionary).
    pub key: Seq<char>,
}

/// How a container kind is named in a circular-reference failure.
pub open spec fn container_name(kind: PyContainer) -> Seq<char> {
    match kind {
        PyContainer::List => "list"@,
        PyContainer::Dict => "dict"@,
        PyContainer::PySet => "set"@,
        PyContainer::FrozenSet => "frozenset"@,
    }
}

/// A container with this identity is being read.
pub open spec fn on_path(frames: Seq<PyFrameView>, identity: usize) -> bool {
    exists|i: int| 0 <= i < frames.len() && (#[trigger] frames[i]).identity == identity
}

/// A container of which nothing was read yet.
pub open spec fn open_frame(kind: PyContainer, identity: usize) -> PyFrameView {
    PyFrameView { kind, identity, items: Seq::empty(), entries: Seq::empty(), key: Seq::empty() }
}

/// The value that a container amounts to.
pub open spec fn frame_value(frame: PyFrameView) -> JsView {
    match frame.kind {
        PyContainer::List => JsView::Array(frame.items),
        PyContainer::Dict => JsView::Object(frame.entries),
        PyContainer::PySet => JsView::JsSet(frame.items),
        PyContainer::FrozenSet => JsView::JsSet(frame.items),
    }
}

/// The container with one more value.
pub open spec fn frame_with(frame: PyFrameView, value: JsView) -> PyFrameView {
    match frame.kind {
        PyContainer::Dict => PyFrameView { entries: put(frame.entries, frame.key, value), ..frame },
        _ => PyFrameView { items: frame.items.push(value), ..frame },
    }
}

/// A completed value goes into the innermost container; without one it is the result.
pub open spec fn deliver(frames: Seq<PyFrameView>, value: JsView) -> (
    Seq<PyFrameView>,
    PyStepView,
) {
    if frames.len() == 0 {
        (frames, PyStepView::Done(value))
    } else {
        (frames.drop_last().push(frame_with(frames.last(), value)), PyStepView::More)
    }
}

/// The header that a container kind is metered with.
pub open spec fn container_header(kind: PyContainer) -> nat {
    match kind {
        PyContainer::List => 16,
        _ => 24,
    }
}

/// The bytes that the slots of a container are metered with.
pub open spec fn container_slots(kind: PyContainer, len: usize) -> nat {
    saturating_product(
        len as nat,
        match kind {
            PyContainer::Dict => word_bytes() * 2,
            _ => word_bytes(),
        },
    )
}

/// The value of an object that is no container, within its level.
pub open spec fn scalar(reading: PyReadingView, state: LimitState) -> (
    Result<JsView, Seq<char>>,
    LimitState,
) {
    match reading {
        PyReadingView::NoneValue => metered(state, 4, Ok(JsView::Null)),
        PyReadingView::Undefined => metered(state, 0, Ok(JsView::Undefined)),
        PyReadingView::StreamSource(source) => metered(
            state,
            4,
            match transferred_stream(source) {
                Ok(id) => Ok(JsView::PyStream(id)),
                Err(text) => Err(text),
            },
        ),
        PyReadingView::Bytes(bytes) => metered(state, bytes.len(), Ok(JsView::Bytes(bytes))),
        PyReadingView::DateTime(timestamp, epoch_ms) => metered(
            state,
            16,
            if !(Double { bits: timestamp }).finite() {
                Err("datetime.timestamp returned non-finite value"@)
            } else if !(Double { bits: epoch_ms }).within_i64_span() {
                Err("Datetime value out of range for JavaScript Date"@)
            } else {
                Ok(
                    JsView::Date(
                        clamp(
                            (Double { bits: epoch_ms }).rounded(),
                            i64::MIN as int,
                            i64::MAX as int,
                        ) as i64,
                    ),
                )
            },
        ),
        PyReadingView::FailedDateTime(text) => metered(state, 16, Err(text)),
        PyReadingView::Bool(b) => metered(state, 1, Ok(JsView::Bool(b))),
        PyReadingView::Int(i) => metered(state, 8, Ok(JsView::Int(i))),
        PyReadingView::BigInt(i) => metered(state, magnitude_len(i), Ok(JsView::BigInt(i))),
        PyReadingView::Float(bits) => metered(state, 8, Ok(JsView::Float(bits))),
        PyReadingView::Str(s) => if byte_len(s) > state.max_bytes {
            (Err(byte_limit_text(byte_len(s), state.max_bytes)), state)
        } else {
            metered_twice(state, byte_len(s), 16, Ok(JsView::String(s)))
        },
        PyReadingView::Function(function, shut_down) => match transferred_function(
            function,
            shut_down,
        ) {
            Ok(id) => metered(state, 8, Ok(JsView::Function(id))),
            Err(text) => (Err(text), state),
        },
        PyReadingView::Unsupported => (
            Err("Unsupported Python type for JSValue conversion"@),
            state.exited(),
        ),
        PyReadingView::Failed(text) => (Err(text), state),
        PyReadingView::Container(_, _, _) => (Ok(JsView::Undefined), state),
    }
}

/// What follows once an object was read: its level is entered, it is metered, and
/// it is a complete value or a container to be read.
pub open spec fn accept(
    frames: Seq<PyFrameView>,
    state: LimitState,
    reading: PyReadingView,
) -> (Seq<PyFrameView>, LimitState, PyStepView) {
    let entered = state.entered();
    match entered.level_refusal() {
        Some(text) => (frames, entered, PyStepView::Failed(text)),
        None => match reading {
            PyReadingView::Container(kind, identity, len) => if on_path(frames, identity) {
                (
                    frames,
                    entered,
                    PyStepView::Failed(
                        "Circular reference detected while converting Python "@ + container_name(
                            kind,
                        ),
                    ),
                )
            } else {
                match metered_twice(
                    entered,
                    container_header(kind),
                    container_slots(kind, len),
                    Ok(()),
                ) {
                    (Err(text), counted) => (frames, counted, PyStepView::Failed(text)),
                    (Ok(_), counted) => (
                        frames.push(open_frame(kind, identity)),
                        counted,
                        PyStepView::More,
                    ),
                }
            },
            _ => match scalar(reading, entered) {
                (Err(text), counted) => (frames, counted, PyStepView::Failed(text)),
                (Ok(value), counted) => {
                    let (after, step) = deliver(frames, value);
                    (after, counted.exited(), step)
                },
            },
        },
    }
}

/// The innermost container with `key` as the one whose value comes next.
pub open spec fn with_key(frames: Seq<PyFrameView>, key: Seq<char>) -> Seq<PyFrameView> {
    frames.drop_last().push(PyFrameView { key, ..frames.last() })
}

/// What follows an event while a container is being read.
pub open spec fn advance(frames: Seq<PyFrameView>, state: LimitState, event: PyEventView) -> (
    Seq<PyFrameView>,
    LimitState,
    PyStepView,
) {
    match event {
        PyEventView::Item(reading) => accept(frames, state, reading),
        PyEventView::Entry(key, reading) => match metered_twice(
            state,
            byte_len(key),
            8,
            Ok(()),
        ) {
            (Err(text), counted) => (frames, counted, PyStepView::Failed(text)),
            (Ok(_), counted) => accept(with_key(frames, key), counted, reading),
        },
        PyEventView::FailedKey(text) => (frames, state, PyStepView::Failed(text)),
        PyEventView::End => {
            let (after, step) = deliver(frames.drop_last(), frame_value(frames.last()));
            (after, state.exited(), step)
        },
    }
}

struct PyFrame {
    kind: PyContainer,
    identity: usize,
    items: Vec<JSValue>,
    entries: ObjectMap,
    key: String,
}

impl PyFrame {
    spec fn view(self) -> PyFrameView {
        PyFrameView {
            kind: self.kind,
            identity: self.identity,
            items: views(self.items@),
            entries: self.entries@,
            key: self.key@,
        }
    }
}

/// Builds a `JSValue` from what is read of a Python object and its items.
pub struct PyImporter {
    frames: Vec<PyFrame>,
}

impl View for PyImporter {
    type V = Seq<PyFrameView>;

    closed spec fn view(&self) -> Seq<PyFrameView> {
        self.frames@.map_values(|frame: PyFrame| frame.view())
    }
}

impl PyImporter {
    pub fn new() -> (importer: PyImporter)
        ensures
            importer@ == Seq::<PyFrameView>::empty(),
    {
        let importer = PyImporter { frames: Vec::new() };
        assert(importer@ == Seq::<PyFrameView>::empty());
        importer
    }

    /// The number of containers that are being read.
    pub fn depth(&self) -> (n: usize)
        ensures
            n == self@.len(),
    {
        self.frames.len()
    }

    fn is_on_path(&self, identity: usize) -> (found: bool)
        ensures
            found == on_path(self@, identity),
    {
        let mut i: usize = 0;
        while i < self.frames.len()
            invariant
                i <= self.frames@.len(),
                forall|k: int| 0 <= k < i ==> (#[trigger] self@[k]).identity != identity,
            decreases self.frames@.len() - i,
        {
            if self.frames[i].identity == identity {
                assert(self@[i as int].identity == identity);
                return true;
            }
            i = i + 1;
        }
        false
    }

    /// A completed value goes into the innermost container; without one it is
    /// the result.
    fn deliver(&mut self, value: JSValue) -> (step: PyStep)
        ensures
            (final(self)@, step.view()) == deliver(old(self)@, value.view()),
    {
        let ghost before = self@;
        match self.frames.pop() {
            None => {
                assert(self@ =~= before);
                PyStep::Done(value)
            },
            Some(frame) => {
                let mut frame: PyFrame = frame;
                let ghost inner = frame.view();
                assert(inner == before.last());
                assert(self@ =~= before.drop_last());
                match frame.kind {
                    PyContainer::Dict => {
                        let key: String = frame.key.clone();
                        frame.entries.insert(key, value);
                    },
                    _ => {
                        frame.items.push(value);
                    },
                }
                assert(frame.view() == frame_with(inner, value.view()));
                let ghost outer = self@;
                self.frames.push(frame);
                assert(self@ =~= outer.push(frame.view()));
                PyStep::More
            },
        }
    }

    /// Tells what was read of the object to be converted, or of the next item of
    /// the innermost container.
    pub fn accept(&mut self, tracker: &mut LimitTracker, reading: PyReading) -> (step: PyStep)
        ensures
            (final(self)@, final(tracker)@, step.view()) == accept(
                old(self)@,
                old(tracker)@,
                reading@,
            ),
    {
        match enter(tracker) {
            Ok(()) => {},
            Err(text) => return PyStep::Failed(text),
        }
        if let PyReading::Container { kind, identity, len } = reading {
            return self.open(tracker, kind, identity, len);
        }
        match convert_scalar(tracker, reading) {
            Ok(value) => {
                tracker.exit();
                self.deliver(value)
            },
            Err(text) => PyStep::Failed(text),
        }
    }

    fn open(
        &mut self,
        tracker: &mut LimitTracker,
        kind: PyContainer,
        identity: usize,
        len: usize,
    ) -> (step: PyStep)
        ensures
            on_path(old(self)@, identity) ==> final(self)@ == old(self)@ && final(tracker)@ == old(
                tracker,
            )@ && step.view() == PyStepView::Failed(
                "Circular reference detected while converting Python "@ + container_name(kind),
            ),
            !on_path(old(self)@, identity) ==> match metered_twice(
                old(tracker)@,
                container_header(kind),
                container_slots(kind, len),
                Ok(()),
            ) {
                (Err(text), counted) => final(self)@ == old(self)@ && final(tracker)@ == counted
                    && step.view() == PyStepView::Failed(text),
                (Ok(_), counted) => final(self)@ == old(self)@.push(open_frame(kind, identity))
                    && final(tracker)@ == counted && step.view() == PyStepView::More,
            },
    {
        if self.is_on_path(identity) {
            let name: &str = match kind {
                PyContainer::List => "list",
                PyContainer::Dict => "dict",
                PyContainer::PySet => "set",
                PyContainer::FrozenSet => "frozenset",
            };
            return PyStep::Failed(
                join2("Circular reference detected while converting Python ", name),
            );
        }
        let header: usize = match kind {
            PyContainer::List => 16,
            _ => 24,
        };
        let pairs: bool = match kind {
            PyContainer::Dict => true,
            _ => false,
        };
        match charge_twice(tracker, header, slot_bytes(len, pairs)) {
            Ok(()) => {},
            Err(text) => return PyStep::Failed(text),
        }
        let ghost before = self@;
        let frame = PyFrame {
            kind,
            identity,
            items: Vec::new(),
            entries: ObjectMap::new(),
            key: String::new(),
        };
        assert(frame.view() == open_frame(kind, identity));
        self.frames.push(frame);
        assert(self@ =~= before.push(frame.view()));
        PyStep::More
    }

    /// Tells what was read next of the innermost container.
    pub fn feed(&mut self, tracker: &mut LimitTracker, event: PyEvent) -> (step: PyStep)
        requires
            old(self)@.len() > 0,
        ensures
            (final(self)@, final(tracker)@, step.view()) == advance(
                old(self)@,
                old(tracker)@,
                event@,
            ),
    {
        match event {
            PyEvent::Item(reading) => self.accept(tracker, reading),
            PyEvent::Entry { key, value } => {
                match charge_twice(tracker, str_bytes(&key), 8) {
                    Ok(()) => {},
                    Err(text) => return PyStep::Failed(text),
                }
                self.set_key(key);
                self.accept(tracker, value)
            },
            PyEvent::FailedKey(text) => PyStep::Failed(text),
            PyEvent::End => {
                let ghost before = self@;
                match self.frames.pop() {
                    Some(frame) => {
                        assert(frame.view() == before.last());
                        assert(self@ =~= before.drop_last());
                        let value: JSValue = match frame.kind {
                            PyContainer::List => JSValue::Array(frame.items),
                            PyContainer::Dict => JSValue::Object(frame.entries),
                            PyContainer::PySet => JSValue::JsSet(frame.items),
                            PyContainer::FrozenSet => JSValue::JsSet(frame.items),
                        };
                        tracker.exit();
                        self.deliver(value)
                    },
                    None => vstd::pervasive::unreached(),
                }
            },
        }
    }

    fn set_key(&mut self, key: String)
        requires
            old(self)@.len() > 0,
        ensures
            final(self)@ == with_key(old(self)@, key@),
    {
        let ghost before = self@;
        match self.frames.pop() {
            Some(frame) => {
                let mut frame: PyFrame = frame;
                assert(frame.view() == before.last());
                assert(self@ =~= before.drop_last());
                frame.key = key;
                let ghost outer = self@;
                self.frames.push(frame);
                assert(self@ =~= outer.push(frame.view()));
            },
            None => {},
        }
    }
}

/// The value of an object that is no container.
fn convert_scalar(tracker: &mut LimitTracker, reading: PyReading) -> (result: Result<
    JSValue,
    String,
>)
    requires
        !(reading is Container),
    ensures
        (
            match result {
                Ok(value) => Ok(value.view()),
                Err(text) => Err(text@),
            },
            final(tracker)@,
        ) == scalar(reading@, old(tracker)@),
{
    match reading {
        PyReading::NoneValue => match charge(tracker, 4) {
            Ok(()) => Ok(JSValue::Null),
            Err(text) => Err(text),
        },
        PyReading::Undefined => match charge(tracker, 0) {
            Ok(()) => Ok(JSValue::Undefined),
            Err(text) => Err(text),
        },
        PyReading::StreamSource(source) => match charge(tracker, 4) {
            Ok(()) => match source.stream_id_for_transfer() {
                Ok(id) => Ok(JSValue::PyStream { id }),
                Err(text) => Err(text),
            },
            Err(text) => Err(text),
        },
        PyReading::Bytes(bytes) => match charge(tracker, bytes.len()) {
            Ok(()) => Ok(JSValue::Bytes(bytes)),
            Err(text) => Err(text),
        },
        PyReading::DateTime { timestamp, epoch_ms } => match charge(tracker, 16) {
            Ok(()) => if !timestamp.is_finite() {
                Err("datetime.timestamp returned non-finite value".to_owned())
            } else if !epoch_ms.is_within_i64_span() {
                Err("Datetime value out of range for JavaScript Date".to_owned())
            } else {
                Ok(JSValue::Date(epoch_ms.round_to_i64()))
            },
            Err(text) => Err(text),
        },
        PyReading::FailedDateTime(failure) => match charge(tracker, 16) {
            Ok(()) => Err(failure),
            Err(text) => Err(text),
        },
        PyReading::Bool(b) => match charge(tracker, 1) {
            Ok(()) => Ok(JSValue::Bool(b)),
            Err(text) => Err(text),
        },
        PyReading::Int(i) => match charge(tracker, 8) {
            Ok(()) => Ok(JSValue::Int(i)),
            Err(text) => Err(text),
        },
        PyReading::BigInt(value) => match charge(tracker, value.magnitude_bytes()) {
            Ok(()) => Ok(JSValue::BigInt(value)),
            Err(text) => Err(text),
        },
        PyReading::Float(d) => match charge(tracker, 8) {
            Ok(()) => Ok(JSValue::Float(d)),
            Err(text) => Err(text),
        },
        PyReading::Str(s) => {
            let len: usize = str_bytes(&s);
            if len > tracker.max_bytes() {
                return Err(byte_limit_message(len, tracker.max_bytes()));
            }
            match charge_twice(tracker, len, 16) {
                Ok(()) => Ok(JSValue::String(s)),
                Err(text) => Err(text),
            }
        },
        PyReading::Function(function, shut_down) => match function.function_id_for_transfer(
            shut_down,
        ) {
            Ok(id) => match charge(tracker, 8) {
                Ok(()) => Ok(JSValue::Function { id }),
                Err(text) => Err(text),
            },
            Err(text) => Err(text),
        },
        PyReading::Unsupported => {
            tracker.exit();
            Err("Unsupported Python type for JSValue conversion".to_owned())
        },
        PyReading::Failed(text) => Err(text),
        PyReading::Container { .. } => vstd::pervasive::unreached(),
    }
}

/// What a reader of a call's arguments holds: the containers that are being read,
/// the shared budget, and the arguments that are complete.
#[verifier::ext_equal]
pub struct ArgumentsView {
    pub frames: Seq<PyFrameView>,
    pub budget: LimitState,
    pub done: Seq<JsView>,
}

/// What a step of one argument does to the reader.
pub open spec fn argument_step(
    before: ArgumentsView,
    step: (Seq<PyFrameView>, LimitState, PyStepView),
) -> ArgumentsView {
    ArgumentsView {
        frames: step.0,
        budget: step.1,
        done: match step.2 {
            PyStepView::Done(value) => before.done.push(value),
            _ => before.done,
        },
    }
}

/// What a step of one argument amounts to.
#[derive(Debug)]
pub enum ArgumentStep {
    /// More is to be told of the argument.
    More,
    /// The argument is complete.
    Complete,
    Failed(String),
}

/// The step tells what became of the argument.
pub open spec fn argument_outcome(step: PyStepView, r: ArgumentStep) -> bool {
    match step {
        PyStepView::More => r is More,
        PyStepView::Done(_) => r is Complete,
        PyStepView::Failed(text) => r matches ArgumentStep::Failed(t) && t@ == text,
    }
}

/// Reads a call's arguments with one shared budget, so that
/// `max_serialization_bytes` is an aggregate for the whole call.
pub struct ArgumentReader {
    importer: PyImporter,
    tracker: LimitTracker,
    done: Vec<JSValue>,
}

impl View for ArgumentReader {
    type V = ArgumentsView;

    closed spec fn view(&self) -> ArgumentsView {
        ArgumentsView {
            frames: self.importer@,
            budget: self.tracker@,
            done: views(self.done@),
        }
    }
}

impl ArgumentReader {
    pub fn new(limits: &SerializationLimits) -> (reader: Self)
        ensures
            reader@ == (ArgumentsView {
                frames: Seq::empty(),
                budget: LimitState::fresh(limits.max_depth as nat, limits.max_bytes as nat),
                done: Seq::empty(),
            }),
    {
        let reader = ArgumentReader {
            importer: PyImporter::new(),
            tracker: LimitTracker::new(limits.max_depth, limits.max_bytes),
            done: Vec::new(),
        };
        assert(reader@.done =~= Seq::empty());
        reader
    }

    /// The number of containers that are being read.
    pub fn depth(&self) -> (n: usize)
        ensures
            n == self@.frames.len(),
    {
        self.importer.depth()
    }

    /// Notes how much stack is in use on this thread (`None` without an anchor)
    /// and whether the build is optimized.
    pub fn note_stack(&mut self, used: Option<usize>, optimized: bool)
        ensures
            final(self)@ == (ArgumentsView {
                budget: LimitState { optimized, ..old(self)@.budget.measured(used) },
                ..old(self)@
            }),
    {
        self.tracker.note_stack(used, optimized);
    }

    /// Tells what was read of the next argument, or of an item in it.
    pub fn accept(&mut self, reading: PyReading) -> (r: ArgumentStep)
        ensures
            ({
                let step = accept(old(self)@.frames, old(self)@.budget, reading@);
                &&& final(self)@ == argument_step(old(self)@, step)
                &&& argument_outcome(step.2, r)
            }),
    {
        let step: PyStep = self.importer.accept(&mut self.tracker, reading);
        self.take(step)
    }

    /// Tells what was read next of the innermost container.
    pub fn feed(&mut self, event: PyEvent) -> (r: ArgumentStep)
        requires
            old(self)@.frames.len() > 0,
        ensures
            ({
                let step = advance(old(self)@.frames, old(self)@.budget, event@);
                &&& final(self)@ == argument_step(old(self)@, step)
                &&& argument_outcome(step.2, r)
            }),
    {
        let step: PyStep = self.importer.feed(&mut self.tracker, event);
        self.take(step)
    }

    fn take(&mut self, step: PyStep) -> (r: ArgumentStep)
        ensures
            final(self)@ == argument_step(
                old(self)@,
                (old(self)@.frames, old(self)@.budget, step.view()),
            ),
            argument_outcome(step.view(), r),
    {
        match step {
            PyStep::More => ArgumentStep::More,
            PyStep::Failed(text) => ArgumentStep::Failed(text),
            PyStep::Done(value) => {
                let ghost before = self.done@;
                self.done.push(value);
                assert(views(self.done@) =~= views(before).push(value.view()));
                ArgumentStep::Complete
            },
        }
    }

    /// The arguments, in order.
    pub fn finish(self) -> (args: Vec<JSValue>)
        ensures
            views(args@) == self@.done,
    {
        self.done
    }
}

} // verus!
