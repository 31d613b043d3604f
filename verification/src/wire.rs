//! The self-describing form in which values cross the engine boundary.
//!
//! Values that plain data cannot express (undefined, dates, sets, big integers,
//! streams) are written as maps that carry a type tag.

use crate::bigint::{law_parse_of_decimal, parse_decimal, JsBigInt};
use crate::double::{clamp, double_from_large, nearest_double_above_i64, Double};
use crate::js_value::{
    distinct_keys, lemma_children_smaller, lemma_position, lemma_view, lemma_views_push, lookup,
    put, views, JSValue, JsView, ObjectMap,
};
use crate::text::{decimal, decimal_string, int_decimal, join2, join3, str_eq};
use vstd::prelude::*;

verus! {

broadcast use {lemma_view, lemma_views_push};

/// A self-describing value as a serializer writes it and a deserializer reads it.
#[derive(Debug)]
pub enum WireValue {
    /// The unit value.
    Unit,
    /// An absent optional value.
    Absent,
    Bool(bool),
    Signed(i64),
    Unsigned(u64),
    Number(Double),
    Text(String),
    Bytes(Vec<u8>),
    List(Vec<WireValue>),
    Entries(Vec<(String, WireValue)>),
}

/// Why a value could not be written or read.
#[derive(Debug)]
pub enum WireError {
    /// Functions must be called, not serialized.
    Function { id: u32 },
    /// The text of a tagged big integer is no decimal literal.
    BigIntLiteral { text: String },
    /// The payload of a tagged big integer is neither text nor an integer.
    BigIntPayload { payload: JSValue },
    /// The id of a tagged stream is not a number that is at least zero.
    StreamId { kind: StreamKind, payload: JSValue },
}

/// Which side a tagged stream comes from.
#[derive(Clone, Copy, Debug, PartialEq, Eq, Structural)]
pub enum StreamKind {
    JsStream,
    PyStream,
}

#[verifier::ext_equal]
pub enum WireView {
    Unit,
    Absent,
    Bool(bool),
    Signed(i64),
    Unsigned(u64),
    Number(u64),
    Text(Seq<char>),
    Bytes(Seq<u8>),
    List(Seq<WireView>),
    Entries(Seq<(Seq<char>, WireView)>),
}

#[verifier::ext_equal]
pub enum WireFault {
    Function(u32),
    BigIntLiteral(Seq<char>),
    BigIntPayload(JsView),
    StreamId(StreamKind, JsView),
}

impl WireValue {
    pub open spec fn view(self) -> WireView
        decreases self,
    {
        match self {
            WireValue::Unit => WireView::Unit,
            WireValue::Absent => WireView::Absent,
            WireValue::Bool(b) => WireView::Bool(b),
            WireValue::Signed(i) => WireView::Signed(i),
            WireValue::Unsigned(u) => WireView::Unsigned(u),
            WireValue::Number(d) => WireView::Number(d.bits),
            WireValue::Text(s) => WireView::Text(s@),
            WireValue::Bytes(bytes) => WireView::Bytes(bytes@),
            WireValue::List(items) => WireView::List(
                Seq::new(
                    items@.len(),
                    |i: int|
                        if 0 <= i < items@.len() {
                            items@[i].view()
                        } else {
                            WireView::Unit
                        },
                ),
            ),
            WireValue::Entries(entries) => WireView::Entries(
                Seq::new(
                    entries@.len(),
                    |i: int|
                        (
                            entries@[i].0@,
                            if 0 <= i < entries@.len() {
                                entries@[i].1.view()
                            } else {
                                WireView::Unit
                            },
                        ),
                ),
            ),
        }
    }
}

impl View for WireError {
    type V = WireFault;

    open spec fn view(&self) -> WireFault {
        match *self {
            WireError::Function { id } => WireFault::Function(id),
            WireError::BigIntLiteral { text } => WireFault::BigIntLiteral(text@),
            WireError::BigIntPayload { payload } => WireFault::BigIntPayload(payload.view()),
            WireError::StreamId { kind, payload } => WireFault::StreamId(kind, payload.view()),
        }
    }
}

pub open spec fn wire_views(items: Seq<WireValue>) -> Seq<WireView> {
    items.map_values(|item: WireValue| item.view())
}

pub open spec fn entry_views(entries: Seq<(String, WireValue)>) -> Seq<(Seq<char>, WireView)> {
    entries.map_values(|entry: (String, WireValue)| (entry.0@, entry.1.view()))
}

pub open spec fn type_tag() -> Seq<char> {
    "__pydeno_type"@
}

/// Key holding a tagged value's payload.
pub open spec fn payload_key(tag: Seq<char>) -> Seq<char> {
    if tag == "Date"@ {
        "epoch_ms"@
    } else if tag == "Set"@ {
        "values"@
    } else if tag == "BigInt"@ {
        "value"@
    } else {
        "id"@
    }
}

/// A map that carries a type tag and nothing else.
pub open spec fn bare_tag(tag: Seq<char>) -> WireView {
    WireView::Entries(seq![(type_tag(), WireView::Text(tag))])
}

/// A map that carries a type tag and a payload.
pub open spec fn tagged(tag: Seq<char>, payload: WireView) -> WireView {
    WireView::Entries(seq![(type_tag(), WireView::Text(tag)), (payload_key(tag), payload)])
}

/// The form in which a value is written.
pub open spec fn encode(value: JsView) -> Result<WireView, WireFault>
    decreases value,
{
    match value {
        JsView::Undefined => Ok(bare_tag("Undefined"@)),
        JsView::Null => Ok(WireView::Absent),
        JsView::Bool(b) => Ok(WireView::Bool(b)),
        JsView::Int(i) => Ok(WireView::Signed(i)),
        JsView::BigInt(i) => Ok(tagged("BigInt"@, WireView::Text(int_decimal(i)))),
        JsView::Float(bits) => Ok(WireView::Number(bits)),
        JsView::String(s) => Ok(WireView::Text(s)),
        JsView::Bytes(bytes) => Ok(WireView::Bytes(bytes)),
        JsView::Array(items) => match encode_items(items) {
            Ok(list) => Ok(WireView::List(list)),
            Err(fault) => Err(fault),
        },
        JsView::Object(entries) => match encode_entries(entries) {
            Ok(written) => Ok(WireView::Entries(written)),
            Err(fault) => Err(fault),
        },
        JsView::Date(ms) => Ok(tagged("Date"@, WireView::Signed(ms))),
        JsView::JsSet(items) => match encode_items(items) {
            Ok(list) => Ok(tagged("Set"@, WireView::List(list))),
            Err(fault) => Err(fault),
        },
        JsView::Function(id) => Err(WireFault::Function(id)),
        JsView::JsStream(id) => Ok(tagged("JsStream"@, WireView::Unsigned(id as u64))),
        JsView::PyStream(id) => Ok(tagged("PyStream"@, WireView::Unsigned(id as u64))),
    }
}

/// Each item as it is written, or the first fault.
pub open spec fn encode_items(items: Seq<JsView>) -> Result<Seq<WireView>, WireFault>
    decreases items,
{
    if items.len() == 0 {
        Ok(Seq::empty())
    } else {
        match encode_items(items.drop_last()) {
            Ok(written) => match encode(items.last()) {
                Ok(last) => Ok(written.push(last)),
                Err(fault) => Err(fault),
            },
            Err(fault) => Err(fault),
        }
    }
}

/// Each property as it is written, or the first fault.
pub open spec fn encode_entries(entries: Seq<(Seq<char>, JsView)>) -> Result<
    Seq<(Seq<char>, WireView)>,
    WireFault,
>
    decreases entries,
{
    if entries.len() == 0 {
        Ok(Seq::empty())
    } else {
        match encode_entries(entries.drop_last()) {
            Ok(written) => match encode(entries.last().1) {
                Ok(last) => Ok(written.push((entries.last().0, last))),
                Err(fault) => Err(fault),
            },
            Err(fault) => Err(fault),
        }
    }
}

/// The id of a tagged stream: an integer is cut to 32 bits, a finite number that
/// is at least zero is truncated and held at the largest id.
pub open spec fn stream_id_of(payload: JsView) -> Option<u32> {
    match payload {
        JsView::Int(i) => if i >= 0 {
            Some((i as int % 0x1_0000_0000) as u32)
        } else {
            None
        },
        JsView::Float(bits) => if (Double { bits }).finite() && !(Double { bits }).below_zero() {
            Some(clamp((Double { bits }).trunc(), 0, u32::MAX as int) as u32)
        } else {
            None
        },
        _ => None,
    }
}

/// What a map with type tag `tag` stands for, given the value under its payload
/// key; `None` when it is no more than a plain object.
pub open spec fn untag(tag: Seq<char>, payload: Option<JsView>) -> Option<
    Result<JsView, WireFault>,
> {
    if tag == "Undefined"@ {
        Some(Ok(JsView::Undefined))
    } else if tag == "Date"@ {
        match payload {
            Some(JsView::Int(ms)) => Some(Ok(JsView::Date(ms))),
            Some(JsView::Float(bits)) => if (Double { bits }).finite() {
                Some(
                    Ok(
                        JsView::Date(
                            clamp(
                                (Double { bits }).trunc(),
                                i64::MIN as int,
                                i64::MAX as int,
                            ) as i64,
                        ),
                    ),
                )
            } else {
                None
            },
            _ => None,
        }
    } else if tag == "Set"@ {
        match payload {
            Some(JsView::Array(items)) => Some(Ok(JsView::JsSet(items))),
            _ => None,
        }
    } else if tag == "BigInt"@ {
        match payload {
            Some(JsView::String(text)) => match parse_decimal(text) {
                Some(i) => Some(Ok(JsView::BigInt(i))),
                None => Some(Err(WireFault::BigIntLiteral(text))),
            },
            Some(JsView::Int(i)) => Some(Ok(JsView::BigInt(i as int))),
            Some(other) => Some(Err(WireFault::BigIntPayload(other))),
            None => None,
        }
    } else if tag == "JsStream"@ {
        match payload {
            Some(entry) => match stream_id_of(entry) {
                Some(id) => Some(Ok(JsView::JsStream(id))),
                None => Some(Err(WireFault::StreamId(StreamKind::JsStream, entry))),
            },
            None => None,
        }
    } else if tag == "PyStream"@ {
        match payload {
            Some(entry) => match stream_id_of(entry) {
                Some(id) => Some(Ok(JsView::PyStream(id))),
                None => Some(Err(WireFault::StreamId(StreamKind::PyStream, entry))),
            },
            None => None,
        }
    } else {
        None
    }
}

/// What a map with these properties and this type tag stands for. A recognised
/// tag with a malformed payload falls through to a plain object that keeps the tag.
pub open spec fn finish_map(object: Seq<(Seq<char>, JsView)>, tag: Option<Seq<char>>) -> Result<
    JsView,
    WireFault,
> {
    match tag {
        None => Ok(JsView::Object(object)),
        Some(t) => match untag(t, lookup(object, payload_key(t))) {
            Some(result) => result,
            None => Ok(JsView::Object(put(object, type_tag(), JsView::String(t)))),
        },
    }
}

/// The value that a written form is read as.
pub open spec fn decode(wire: WireView) -> Result<JsView, WireFault>
    decreases wire,
{
    match wire {
        WireView::Unit => Ok(JsView::Undefined),
        WireView::Absent => Ok(JsView::Null),
        WireView::Bool(b) => Ok(JsView::Bool(b)),
        WireView::Signed(i) => Ok(JsView::Int(i)),
        WireView::Unsigned(u) => Ok(unsigned_value(u)),
        WireView::Number(bits) => Ok(JsView::Float(bits)),
        WireView::Text(s) => Ok(JsView::String(s)),
        WireView::Bytes(bytes) => Ok(JsView::Bytes(bytes)),
        WireView::List(items) => match decode_items(items) {
            Ok(values) => Ok(JsView::Array(values)),
            Err(fault) => Err(fault),
        },
        WireView::Entries(entries) => match decode_entries(entries) {
            Ok((object, tag)) => finish_map(object, tag),
            Err(fault) => Err(fault),
        },
    }
}

/// An unsigned integer is an `Int` where it fits, otherwise the nearest double.
pub open spec fn unsigned_value(u: u64) -> JsView {
    if u <= i64::MAX {
        JsView::Int(u as i64)
    } else {
        JsView::Float(double_bits_above_i64(u))
    }
}

/// The bits of the double nearest to an integer past the `i64` range.
pub open spec fn double_bits_above_i64(u: u64) -> u64 {
    (1085 * crate::double::FRACTION_SPAN + nearest_double_above_i64(u as int) / 2048) as u64
}

/// Each item as it is read, or the first fault.
pub open spec fn decode_items(items: Seq<WireView>) -> Result<Seq<JsView>, WireFault>
    decreases items,
{
    if items.len() == 0 {
        Ok(Seq::empty())
    } else {
        match decode_items(items.drop_last()) {
            Ok(values) => match decode(items.last()) {
                Ok(last) => Ok(values.push(last)),
                Err(fault) => Err(fault),
            },
            Err(fault) => Err(fault),
        }
    }
}

/// The properties of a map and its type tag, or the first fault. A string under
/// the tag key is the type tag and no property.
pub open spec fn decode_entries(entries: Seq<(Seq<char>, WireView)>) -> Result<
    (Seq<(Seq<char>, JsView)>, Option<Seq<char>>),
    WireFault,
>
    decreases entries,
{
    if entries.len() == 0 {
        Ok((Seq::empty(), None))
    } else {
        match decode_entries(entries.drop_last()) {
            Ok((object, tag)) => match decode(entries.last().1) {
                Ok(value) => Ok(add_entry(object, tag, entries.last().0, value)),
                Err(fault) => Err(fault),
            },
            Err(fault) => Err(fault),
        }
    }
}

/// The properties and type tag after one more entry of a map was read.
pub open spec fn add_entry(
    object: Seq<(Seq<char>, JsView)>,
    tag: Option<Seq<char>>,
    key: Seq<char>,
    value: JsView,
) -> (Seq<(Seq<char>, JsView)>, Option<Seq<char>>) {
    match value {
        JsView::String(text) => if key == type_tag() {
            (object, Some(text))
        } else {
            (put(object, key, value), tag)
        },
        _ => (put(object, key, value), tag),
    }
}

/// A value's written form with errors by their view.
pub open spec fn wire_result(result: Result<WireValue, WireError>) -> Result<WireView, WireFault> {
    match result {
        Ok(wire) => Ok(wire.view()),
        Err(err) => Err(err@),
    }
}

/// A read value with errors by their view.
pub open spec fn value_result(result: Result<JSValue, WireError>) -> Result<JsView, WireFault> {
    match result {
        Ok(value) => Ok(value.view()),
        Err(err) => Err(err@),
    }
}

/// What a written form holds, by variant.
pub broadcast proof fn lemma_wire_view(wire: WireValue)
    ensures
        (#[trigger] wire.view()) == match wire {
            WireValue::List(items) => WireView::List(wire_views(items@)),
            WireValue::Entries(entries) => WireView::Entries(entry_views(entries@)),
            _ => wire.view(),
        },
{
    match wire {
        WireValue::List(items) => {
            assert(wire.view()->List_0 =~= wire_views(items@));
        },
        WireValue::Entries(entries) => {
            assert(wire.view()->Entries_0 =~= entry_views(entries@));
        },
        _ => {},
    }
}

proof fn lemma_encode_items_prefix(items: Seq<JsView>, n: int)
    requires
        0 <= n <= items.len(),
    ensures
        encode_items(items.take(n)) is Err ==> encode_items(items) == encode_items(items.take(n)),
    decreases items.len() - n,
{
    if n < items.len() {
        lemma_encode_items_prefix(items, n + 1);
        assert(items.take(n + 1).drop_last() =~= items.take(n));
    } else {
        assert(items.take(n) =~= items);
    }
}

proof fn lemma_encode_entries_prefix(entries: Seq<(Seq<char>, JsView)>, n: int)
    requires
        0 <= n <= entries.len(),
    ensures
        encode_entries(entries.take(n)) is Err ==> encode_entries(entries) == encode_entries(
            entries.take(n),
        ),
    decreases entries.len() - n,
{
    if n < entries.len() {
        lemma_encode_entries_prefix(entries, n + 1);
        assert(entries.take(n + 1).drop_last() =~= entries.take(n));
    } else {
        assert(entries.take(n) =~= entries);
    }
}

proof fn lemma_decode_items_prefix(items: Seq<WireView>, n: int)
    requires
        0 <= n <= items.len(),
    ensures
        decode_items(items.take(n)) is Err ==> decode_items(items) == decode_items(items.take(n)),
    decreases items.len() - n,
{
    if n < items.len() {
        lemma_decode_items_prefix(items, n + 1);
        assert(items.take(n + 1).drop_last() =~= items.take(n));
    } else {
        assert(items.take(n) =~= items);
    }
}

proof fn lemma_decode_entries_prefix(entries: Seq<(Seq<char>, WireView)>, n: int)
    requires
        0 <= n <= entries.len(),
    ensures
        decode_entries(entries.take(n)) is Err ==> decode_entries(entries) == decode_entries(
            entries.take(n),
        ),
    decreases entries.len() - n,
{
    if n < entries.len() {
        lemma_decode_entries_prefix(entries, n + 1);
        assert(entries.take(n + 1).drop_last() =~= entries.take(n));
    } else {
        assert(entries.take(n) =~= entries);
    }
}

fn bare_tag_value(tag: &str) -> (wire: WireValue)
    ensures
        wire.view() == bare_tag(tag@),
{
    let mut entries: Vec<(String, WireValue)> = Vec::new();
    let label = WireValue::Text(tag.to_owned());
    assert(label.view() == WireView::Text(tag@));
    entries.push(("__pydeno_type".to_owned(), label));
    let wire = WireValue::Entries(entries);
    assert(wire.view()->Entries_0 =~= bare_tag(tag@)->Entries_0);
    wire
}

/// The map with type tag `tag` and `payload` under its payload key.
fn tagged_value(tag: &str, payload: WireValue) -> (wire: WireValue)
    ensures
        wire.view() == tagged(tag@, payload.view()),
{
    let mut entries: Vec<(String, WireValue)> = Vec::new();
    let label = WireValue::Text(tag.to_owned());
    assert(label.view() == WireView::Text(tag@));
    entries.push(("__pydeno_type".to_owned(), label));
    entries.push((tag_payload_key(tag).to_owned(), payload));
    let wire = WireValue::Entries(entries);
    assert(wire.view()->Entries_0 =~= tagged(tag@, payload.view())->Entries_0);
    wire
}

/// Key holding a tagged value's payload.
pub fn tag_payload_key(tag: &str) -> (key: &'static str)
    ensures
        key@ == payload_key(tag@),
{
    if str_eq(tag, "Date") {
        "epoch_ms"
    } else if str_eq(tag, "Set") {
        "values"
    } else if str_eq(tag, "BigInt") {
        "value"
    } else {
        "id"
    }
}

/// Writes a list of values in order; the first value that cannot be written
/// decides the error.
fn serialize_items(items: &Vec<JSValue>) -> (result: Result<Vec<WireValue>, WireError>)
    ensures
        match result {
            Ok(list) => encode_items(views(items@)) == Ok::<_, WireFault>(wire_views(list@)),
            Err(err) => encode_items(views(items@)) == Err::<Seq<WireView>, _>(err@),
        },
    decreases items@, 0int,
{
    let mut list: Vec<WireValue> = Vec::new();
    let mut i: usize = 0;
    assert(views(items@).take(0) =~= Seq::empty());
    assert(wire_views(list@) =~= Seq::empty());
    while i < items.len()
        invariant
            i <= items@.len(),
            encode_items(views(items@).take(i as int)) == Ok::<_, WireFault>(wire_views(list@)),
        decreases items@.len() - i,
    {
        proof {
            assert(views(items@).take(i + 1).drop_last() =~= views(items@).take(i as int));
            assert(views(items@).take(i + 1).last() == items@[i as int].view());
            assert(decreases_to!(items@ => items@[i as int]));
        }
        match serialize(&items[i]) {
            Ok(wire) => {
                let ghost before = list@;
                list.push(wire);
                assert(wire_views(list@) =~= wire_views(before).push(wire.view()));
            },
            Err(err) => {
                proof {
                    lemma_encode_items_prefix(views(items@), i + 1);
                }
                return Err(err);
            },
        }
        i = i + 1;
    }
    assert(views(items@).take(i as int) =~= views(items@));
    Ok(list)
}

/// Writes a value in its self-describing form.
pub fn serialize(value: &JSValue) -> (result: Result<WireValue, WireError>)
    ensures
        wire_result(result) == encode(value.view()),
    decreases *value, 1int,
{
    proof {
        lemma_children_smaller(*value);
    }
    match value {
        JSValue::Undefined => Ok(bare_tag_value("Undefined")),
        JSValue::Null => Ok(WireValue::Absent),
        JSValue::Bool(b) => Ok(WireValue::Bool(*b)),
        JSValue::Int(i) => Ok(WireValue::Signed(*i)),
        JSValue::BigInt(bigint) => Ok(tagged_value("BigInt", WireValue::Text(bigint.to_decimal()))),
        JSValue::Float(d) => Ok(WireValue::Number(*d)),
        JSValue::String(s) => Ok(WireValue::Text(s.clone())),
        JSValue::Bytes(bytes) => {
            let copy: Vec<u8> = bytes.clone();
            assert(copy@ == bytes@);
            Ok(WireValue::Bytes(copy))
        },
        JSValue::Array(items) => match serialize_items(items) {
            Ok(list) => {
                let wire = WireValue::List(list);
                proof {
                    lemma_wire_view(wire);
                }
                Ok(wire)
            },
            Err(err) => Err(err),
        },
        JSValue::Object(map) => {
            let mut entries: Vec<(String, WireValue)> = Vec::new();
            let mut i: usize = 0;
            let n: usize = map.len();
            assert(map@.take(0) =~= Seq::empty());
            assert(entry_views(entries@) =~= Seq::empty());
            while i < n
                invariant
                    i <= n,
                    n == map@.len(),
                    n == map.value_seq().len(),
                    *value == JSValue::Object(*map),
                    forall|k: int|
                        0 <= k < map.value_seq().len() ==> decreases_to!(
                            *value => #[trigger] map.value_seq()[k]
                        ),
                    encode_entries(map@.take(i as int)) == Ok::<_, WireFault>(
                        entry_views(entries@),
                    ),
                decreases n - i,
            {
                proof {
                    assert(map@.take(i + 1).drop_last() =~= map@.take(i as int));
                    assert(map@.take(i + 1).last() == map@[i as int]);
                }
                let child: &JSValue = map.value_at(i);
                match serialize(child) {
                    Ok(wire) => {
                        let ghost before = entries@;
                        let key: String = map.key_at(i).clone();
                        entries.push((key, wire));
                        assert(entry_views(entries@) =~= entry_views(before).push(
                            (key@, wire.view()),
                        ));
                    },
                    Err(err) => {
                        proof {
                            lemma_encode_entries_prefix(map@, i + 1);
                        }
                        return Err(err);
                    },
                }
                i = i + 1;
            }
            assert(map@.take(i as int) =~= map@);
            let wire = WireValue::Entries(entries);
            proof {
                lemma_wire_view(wire);
            }
            Ok(wire)
        },
        JSValue::Date(ms) => Ok(tagged_value("Date", WireValue::Signed(*ms))),
        JSValue::JsSet(items) => match serialize_items(items) {
            Ok(list) => {
                let wire = WireValue::List(list);
                proof {
                    lemma_wire_view(wire);
                }
                Ok(tagged_value("Set", wire))
            },
            Err(err) => Err(err),
        },
        JSValue::Function { id } => Err(WireError::Function { id: *id }),
        JSValue::JsStream { id } => Ok(
            tagged_value("JsStream", WireValue::Unsigned(*id as u64)),
        ),
        JSValue::PyStream { id } => Ok(
            tagged_value("PyStream", WireValue::Unsigned(*id as u64)),
        ),
    }
}

/// The id of a tagged stream, if its payload is one.
fn stream_id(payload: &JSValue) -> (id: Option<u32>)
    ensures
        id == stream_id_of(payload.view()),
{
    match payload {
        JSValue::Int(i) => if *i >= 0 {
            Some((*i as u64 % 0x1_0000_0000) as u32)
        } else {
            None
        },
        JSValue::Float(d) => if d.is_finite() && !d.is_below_zero() {
            Some(d.to_u32())
        } else {
            None
        },
        _ => None,
    }
}

/// Turns the properties and type tag of a map into the value they stand for.
pub fn value_from_entries(object: ObjectMap, tag: Option<String>) -> (result: Result<
    JSValue,
    WireError,
>)
    ensures
        value_result(result) == finish_map(object@, crate::error::text_view(tag)),
{
    let mut object: ObjectMap = object;
    let tag_value: String = match tag {
        Some(text) => text,
        None => return Ok(JSValue::Object(object)),
    };
    if str_eq(&tag_value, "Undefined") {
        return Ok(JSValue::Undefined);
    }
    let key: &'static str = tag_payload_key(&tag_value);
    let ghost entries = object@;
    if str_eq(&tag_value, "Date") {
        match object.get(key) {
            Some(JSValue::Int(ms)) => return Ok(JSValue::Date(*ms)),
            Some(JSValue::Float(d)) => if d.is_finite() {
                return Ok(JSValue::Date(d.to_i64()));
            },
            _ => {},
        }
    } else if str_eq(&tag_value, "Set") {
        let is_array: bool = match object.get(key) {
            Some(JSValue::Array(_)) => true,
            _ => false,
        };
        if is_array {
            if let Some(JSValue::Array(items)) = object.shift_remove(key) {
                return Ok(JSValue::JsSet(items));
            }
        }
    } else if str_eq(&tag_value, "BigInt") {
        let present: bool = match object.get(key) {
            Some(_) => true,
            None => false,
        };
        if present {
            return match object.shift_remove(key) {
                Some(JSValue::String(text)) => match JsBigInt::parse(&text) {
                    Some(value) => Ok(JSValue::BigInt(value)),
                    None => Err(WireError::BigIntLiteral { text }),
                },
                Some(JSValue::Int(i)) => Ok(JSValue::BigInt(JsBigInt::from_i64(i))),
                Some(payload) => Err(WireError::BigIntPayload { payload }),
                None => vstd::pervasive::unreached(),
            };
        }
    } else if str_eq(&tag_value, "JsStream") || str_eq(&tag_value, "PyStream") {
        let kind: StreamKind = if str_eq(&tag_value, "JsStream") {
            StreamKind::JsStream
        } else {
            StreamKind::PyStream
        };
        let present: bool = match object.get(key) {
            Some(_) => true,
            None => false,
        };
        if present {
            return match object.shift_remove(key) {
                Some(payload) => match stream_id(&payload) {
                    Some(id) => match kind {
                        StreamKind::JsStream => Ok(JSValue::JsStream { id }),
                        StreamKind::PyStream => Ok(JSValue::PyStream { id }),
                    },
                    None => Err(WireError::StreamId { kind, payload }),
                },
                None => vstd::pervasive::unreached(),
            };
        }
    }
    object.insert("__pydeno_type".to_owned(), JSValue::String(tag_value));
    Ok(JSValue::Object(object))
}

/// Reads a value from its self-describing form.
pub fn deserialize(wire: &WireValue) -> (result: Result<JSValue, WireError>)
    ensures
        value_result(result) == decode(wire.view()),
    decreases *wire,
{
    proof {
        lemma_wire_view(*wire);
    }
    match wire {
        WireValue::Unit => Ok(JSValue::Undefined),
        WireValue::Absent => Ok(JSValue::Null),
        WireValue::Bool(b) => Ok(JSValue::Bool(*b)),
        WireValue::Signed(i) => Ok(JSValue::Int(*i)),
        WireValue::Unsigned(u) => if *u <= 0x7fff_ffff_ffff_ffff {
            Ok(JSValue::Int(*u as i64))
        } else {
            Ok(JSValue::Float(double_from_large(*u)))
        },
        WireValue::Number(d) => Ok(JSValue::Float(*d)),
        WireValue::Text(s) => Ok(JSValue::String(s.clone())),
        WireValue::Bytes(bytes) => {
            let copy: Vec<u8> = bytes.clone();
            assert(copy@ == bytes@);
            Ok(JSValue::Bytes(copy))
        },
        WireValue::List(list) => {
            let mut items: Vec<JSValue> = Vec::new();
            let mut i: usize = 0;
            assert(wire_views(list@).take(0) =~= Seq::empty());
            assert(views(items@) =~= Seq::empty());
            while i < list.len()
                invariant
                    i <= list@.len(),
                    *wire == WireValue::List(*list),
                    decode_items(wire_views(list@).take(i as int)) == Ok::<_, WireFault>(
                        views(items@),
                    ),
                decreases list@.len() - i,
            {
                proof {
                    assert(wire_views(list@).take(i + 1).drop_last() =~= wire_views(list@).take(
                        i as int,
                    ));
                    assert(wire_views(list@).take(i + 1).last() == list@[i as int].view());
                }
                match deserialize(&list[i]) {
                    Ok(value) => {
                        items.push(value);
                    },
                    Err(err) => {
                        proof {
                            lemma_decode_items_prefix(wire_views(list@), i + 1);
                            lemma_wire_view(*wire);
                        }
                        return Err(err);
                    },
                }
                i = i + 1;
            }
            proof {
                assert(wire_views(list@).take(i as int) =~= wire_views(list@));
                lemma_wire_view(*wire);
            }
            Ok(JSValue::Array(items))
        },
        WireValue::Entries(entries) => {
            let mut object = ObjectMap::new();
            let mut tag: Option<String> = None;
            let mut i: usize = 0;
            assert(entry_views(entries@).take(0) =~= Seq::empty());
            while i < entries.len()
                invariant
                    i <= entries@.len(),
                    *wire == WireValue::Entries(*entries),
                    decode_entries(entry_views(entries@).take(i as int)) == Ok::<_, WireFault>(
                        (object@, crate::error::text_view(tag)),
                    ),
                decreases entries@.len() - i,
            {
                proof {
                    assert(entry_views(entries@).take(i + 1).drop_last() =~= entry_views(
                        entries@,
                    ).take(i as int));
                    assert(entry_views(entries@).take(i + 1).last() == (
                        entries@[i as int].0@,
                        entries@[i as int].1.view(),
                    ));
                }
                match deserialize(&entries[i].1) {
                    Ok(value) => {
                        let key: &String = &entries[i].0;
                        let is_tag: bool = match &value {
                            JSValue::String(_) => str_eq(key, "__pydeno_type"),
                            _ => false,
                        };
                        if is_tag {
                            if let JSValue::String(text) = value {
                                tag = Some(text);
                            }
                        } else {
                            object.insert(key.clone(), value);
                        }
                    },
                    Err(err) => {
                        proof {
                            lemma_decode_entries_prefix(entry_views(entries@), i + 1);
                            lemma_wire_view(*wire);
                        }
                        return Err(err);
                    },
                }
                i = i + 1;
            }
            proof {
                assert(entry_views(entries@).take(i as int) =~= entry_views(entries@));
                lemma_wire_view(*wire);
            }
            value_from_entries(object, tag)
        },
    }
}

/// The text of a fault; `shown` is how its payload prints.
pub open spec fn fault_text(fault: WireFault, shown: Seq<char>) -> Seq<char> {
    match fault {
        WireFault::Function(id) => "Cannot serialize JSValue::Function (id: "@ + decimal(id as nat)
            + "). Functions must be called, not serialized."@,
        WireFault::BigIntLiteral(text) => "Invalid BigInt literal '"@ + text + "'"@,
        WireFault::BigIntPayload(_) => "Invalid BigInt payload: expected string, got "@ + shown,
        WireFault::StreamId(StreamKind::JsStream, _) => "Invalid JsStream id payload: "@ + shown,
        WireFault::StreamId(StreamKind::PyStream, _) => "Invalid PyStream id payload: "@ + shown,
    }
}

impl WireError {
    /// The text of the error; `shown` is how its payload prints.
    pub fn message(&self, shown: &str) -> (text: String)
        ensures
            text@ == fault_text(self@, shown@),
    {
        match self {
            WireError::Function { id } => join3(
                "Cannot serialize JSValue::Function (id: ",
                &decimal_string(*id as u64),
                "). Functions must be called, not serialized.",
            ),
            WireError::BigIntLiteral { text } => join3("Invalid BigInt literal '", text, "'"),
            WireError::BigIntPayload { .. } => join2(
                "Invalid BigInt payload: expected string, got ",
                shown,
            ),
            WireError::StreamId { kind: StreamKind::JsStream, .. } => join2(
                "Invalid JsStream id payload: ",
                shown,
            ),
            WireError::StreamId { kind: StreamKind::PyStream, .. } => join2(
                "Invalid PyStream id payload: ",
                shown,
            ),
        }
    }
}

/// The text under the tag key, if there is one.
pub open spec fn text_tag(entries: Seq<(Seq<char>, JsView)>) -> Option<Seq<char>>
    decreases entries.len(),
{
    if entries.len() == 0 {
        None
    } else {
        match entries.last() {
            (key, JsView::String(text)) => if key == type_tag() {
                Some(text)
            } else {
                text_tag(entries.drop_last())
            },
            _ => text_tag(entries.drop_last()),
        }
    }
}

/// The properties but for a text under the tag key.
pub open spec fn untagged(entries: Seq<(Seq<char>, JsView)>) -> Seq<(Seq<char>, JsView)>
    decreases entries.len(),
{
    if entries.len() == 0 {
        Seq::empty()
    } else if entries.last().0 == type_tag() && entries.last().1 is String {
        untagged(entries.drop_last())
    } else {
        untagged(entries.drop_last()).push(entries.last())
    }
}

/// The properties with a text under the tag key moved to the end.
pub open spec fn tag_moved_last(entries: Seq<(Seq<char>, JsView)>) -> Seq<(Seq<char>, JsView)> {
    match text_tag(entries) {
        None => untagged(entries),
        Some(tag) => untagged(entries).push((type_tag(), JsView::String(tag))),
    }
}

/// The value with the tag of every object in it moved to the end.
pub open spec fn settled(value: JsView) -> JsView
    decreases value,
{
    match value {
        JsView::Array(items) => JsView::Array(settled_items(items)),
        JsView::JsSet(items) => JsView::JsSet(settled_items(items)),
        JsView::Object(entries) => JsView::Object(tag_moved_last(settled_entries(entries))),
        _ => value,
    }
}

pub open spec fn settled_items(items: Seq<JsView>) -> Seq<JsView>
    decreases items,
{
    if items.len() == 0 {
        Seq::empty()
    } else {
        settled_items(items.drop_last()).push(settled(items.last()))
    }
}

pub open spec fn settled_entries(entries: Seq<(Seq<char>, JsView)>) -> Seq<(Seq<char>, JsView)>
    decreases entries,
{
    if entries.len() == 0 {
        Seq::empty()
    } else {
        settled_entries(entries.drop_last()).push((entries.last().0, settled(entries.last().1)))
    }
}

/// The value holds no function, no object in it has two properties of one name, and
/// none is taken for a tagged value: its tag is no text, means nothing, or has no
/// payload that fits.
pub open spec fn transferable(value: JsView) -> bool
    decreases value,
{
    match value {
        JsView::Array(items) => transferable_items(items),
        JsView::JsSet(items) => transferable_items(items),
        JsView::Object(entries) => {
            &&& distinct_keys(entries)
            &&& transferable_entries(entries)
            &&& match text_tag(entries) {
                None => true,
                Some(tag) => untag(
                    tag,
                    lookup(untagged(settled_entries(entries)), payload_key(tag)),
                ) is None,
            }
        },
        JsView::Function(_) => false,
        _ => true,
    }
}

pub open spec fn transferable_items(items: Seq<JsView>) -> bool
    decreases items,
{
    items.len() == 0 || (transferable_items(items.drop_last()) && transferable(items.last()))
}

pub open spec fn transferable_entries(entries: Seq<(Seq<char>, JsView)>) -> bool
    decreases entries,
{
    entries.len() == 0 || (transferable_entries(entries.drop_last()) && transferable(
        entries.last().1,
    ))
}

/// No object in the value has another property after a text under the tag key.
pub open spec fn tags_last(value: JsView) -> bool
    decreases value,
{
    match value {
        JsView::Array(items) => all_tags_last(items),
        JsView::JsSet(items) => all_tags_last(items),
        JsView::Object(entries) => all_entries_tags_last(entries) && (entries.len() == 0
            || text_tag(entries.drop_last()) is None),
        _ => true,
    }
}

pub open spec fn all_tags_last(items: Seq<JsView>) -> bool
    decreases items,
{
    items.len() == 0 || (all_tags_last(items.drop_last()) && tags_last(items.last()))
}

pub open spec fn all_entries_tags_last(entries: Seq<(Seq<char>, JsView)>) -> bool
    decreases entries,
{
    entries.len() == 0 || (all_entries_tags_last(entries.drop_last()) && tags_last(
        entries.last().1,
    ))
}

/// What was written is read back, for every value that holds no function and is not
/// taken for a tagged one: it is the same but that the tag of an object comes last, and
/// unchanged where it was last before.
pub proof fn law_read_gives_back_what_was_written(value: JsView)
    requires
        transferable(value),
    ensures
        encode(value) is Ok,
        decode(encode(value)->Ok_0) == Ok::<_, WireFault>(settled(value)),
        tags_last(value) ==> settled(value) == value,
    decreases value,
{
    match value {
        JsView::Undefined => {
            lemma_bare_tag_read("Undefined"@);
        },
        JsView::BigInt(i) => {
            law_parse_of_decimal(i);
            lemma_tags_differ();
            lemma_tagged_read("BigInt"@, WireView::Text(int_decimal(i)));
        },
        JsView::Array(items) => {
            lemma_items_read_back(items);
        },
        JsView::JsSet(items) => {
            lemma_items_read_back(items);
            lemma_tags_differ();
            let list = encode_items(items)->Ok_0;
            lemma_tagged_read("Set"@, WireView::List(list));
        },
        JsView::Object(entries) => {
            lemma_entries_read_back(entries);
            let object = untagged(settled_entries(entries));
            lemma_tag_is_settled(entries);
            if text_tag(entries) is Some {
                lemma_tag_left_out(entries);
                lemma_position(object, type_tag());
            }
            if tags_last(value) {
                lemma_tag_is_last(entries);
            }
        },
        JsView::Date(ms) => {
            lemma_tags_differ();
            lemma_tagged_read("Date"@, WireView::Signed(ms));
        },
        JsView::JsStream(id) => {
            lemma_tags_differ();
            lemma_tagged_read("JsStream"@, WireView::Unsigned(id as u64));
        },
        JsView::PyStream(id) => {
            lemma_tags_differ();
            lemma_tagged_read("PyStream"@, WireView::Unsigned(id as u64));
        },
        _ => {},
    }
}

/// The tag of an object stays as its properties are settled.
proof fn lemma_tag_is_settled(entries: Seq<(Seq<char>, JsView)>)
    ensures
        text_tag(settled_entries(entries)) == text_tag(entries),
        settled_entries(entries).len() == entries.len(),
    decreases entries.len(),
{
    if entries.len() > 0 {
        let all = settled_entries(entries);
        lemma_tag_is_settled(entries.drop_last());
        assert(all.drop_last() =~= settled_entries(entries.drop_last()));
        assert(all.last().1 == settled(entries.last().1));
        assert(all.last().1 is String <==> entries.last().1 is String);
    }
}

/// Properties that are settled have no names that were not there.
proof fn lemma_no_new_names(entries: Seq<(Seq<char>, JsView)>, name: Seq<char>)
    requires
        forall|i: int| 0 <= i < entries.len() ==> (#[trigger] entries[i]).0 != name,
    ensures
        forall|i: int|
            0 <= i < untagged(settled_entries(entries)).len() ==> (
            #[trigger] untagged(settled_entries(entries))[i]).0 != name,
        name == type_tag() ==> text_tag(entries) is None,
    decreases entries.len(),
{
    if entries.len() > 0 {
        let all = settled_entries(entries);
        let rest = entries.drop_last();
        assert forall|i: int| 0 <= i < rest.len() implies (#[trigger] rest[i]).0 != name by {
            assert(entries[i].0 != name);
        }
        assert(entries[entries.len() - 1].0 != name);
        lemma_no_new_names(rest, name);
        assert(all.drop_last() =~= settled_entries(rest));
        lemma_untagged_step(entries, name);
    }
}

/// The names that are left once one more property was settled.
proof fn lemma_untagged_step(entries: Seq<(Seq<char>, JsView)>, name: Seq<char>)
    requires
        entries.len() > 0,
        entries.last().0 != name || (entries.last().0 == type_tag() && entries.last().1 is String),
        forall|i: int|
            0 <= i < untagged(settled_entries(entries.drop_last())).len() ==> (
            #[trigger] untagged(settled_entries(entries.drop_last()))[i]).0 != name,
    ensures
        forall|i: int|
            0 <= i < untagged(settled_entries(entries)).len() ==> (
            #[trigger] untagged(settled_entries(entries))[i]).0 != name,
{
    let all = settled_entries(entries);
    let before = untagged(settled_entries(entries.drop_last()));
    assert(all.drop_last() =~= settled_entries(entries.drop_last()));
    assert(all.last() == (entries.last().0, settled(entries.last().1)));
    assert(settled(entries.last().1) is String <==> entries.last().1 is String);
    assert forall|i: int| 0 <= i < untagged(all).len() implies (#[trigger] untagged(all)[i]).0
        != name by {
        if i < before.len() {
            assert(untagged(all)[i] == before[i]);
        }
    }
}

/// The last property has a name of its own.
proof fn lemma_last_name_is_new(entries: Seq<(Seq<char>, JsView)>)
    requires
        distinct_keys(entries),
        entries.len() > 0,
    ensures
        distinct_keys(entries.drop_last()),
        forall|i: int|
            0 <= i < entries.drop_last().len() ==> (#[trigger] entries.drop_last()[i]).0
                != entries.last().0,
{
    let rest = entries.drop_last();
    assert forall|i: int, j: int| 0 <= i < j < rest.len() implies (#[trigger] rest[i]).0 != (
    #[trigger] rest[j]).0 by {
        assert(entries[i].0 != entries[j].0);
    }
    assert forall|i: int| 0 <= i < rest.len() implies (#[trigger] rest[i]).0
        != entries.last().0 by {
        assert(entries[i].0 != entries[entries.len() - 1].0);
    }
}

/// Where a text is under the tag key, nothing else is.
proof fn lemma_tag_left_out(entries: Seq<(Seq<char>, JsView)>)
    requires
        distinct_keys(entries),
        text_tag(entries) is Some,
    ensures
        forall|i: int|
            0 <= i < untagged(settled_entries(entries)).len() ==> (
            #[trigger] untagged(settled_entries(entries))[i]).0 != type_tag(),
    decreases entries.len(),
{
    let rest = entries.drop_last();
    lemma_last_name_is_new(entries);
    if entries.last().0 == type_tag() {
        lemma_no_new_names(rest, type_tag());
    } else {
        lemma_tag_left_out(rest);
    }
    lemma_untagged_step(entries, type_tag());
}

/// Where a text under the tag key is last, moving it there changes nothing.
proof fn lemma_tag_is_last(entries: Seq<(Seq<char>, JsView)>)
    requires
        settled_entries(entries) == entries,
        entries.len() == 0 || text_tag(entries.drop_last()) is None,
    ensures
        tag_moved_last(settled_entries(entries)) == entries,
{
    if entries.len() > 0 {
        lemma_untagged_unchanged(entries.drop_last());
        assert(entries.drop_last().push(entries.last()) =~= entries);
    } else {
        assert(untagged(entries) =~= entries);
    }
}

proof fn lemma_untagged_unchanged(entries: Seq<(Seq<char>, JsView)>)
    requires
        text_tag(entries) is None,
    ensures
        untagged(entries) == entries,
    decreases entries.len(),
{
    if entries.len() > 0 {
        lemma_untagged_unchanged(entries.drop_last());
        assert(entries.drop_last().push(entries.last()) =~= entries);
    } else {
        assert(untagged(entries) =~= entries);
    }
}

proof fn lemma_items_read_back(items: Seq<JsView>)
    requires
        transferable_items(items),
    ensures
        encode_items(items) is Ok,
        decode_items(encode_items(items)->Ok_0) == Ok::<_, WireFault>(settled_items(items)),
        all_tags_last(items) ==> settled_items(items) == items,
    decreases items,
{
    if items.len() > 0 {
        lemma_items_read_back(items.drop_last());
        law_read_gives_back_what_was_written(items.last());
        let head = encode_items(items.drop_last())->Ok_0;
        let all = encode_items(items)->Ok_0;
        assert(all.drop_last() =~= head);
        assert(items.drop_last().push(items.last()) =~= items);
    } else {
        assert(items =~= Seq::empty());
    }
}

proof fn lemma_entries_read_back(entries: Seq<(Seq<char>, JsView)>)
    requires
        distinct_keys(entries),
        transferable_entries(entries),
    ensures
        encode_entries(entries) is Ok,
        decode_entries(encode_entries(entries)->Ok_0) == Ok::<_, WireFault>(
            (untagged(settled_entries(entries)), text_tag(entries)),
        ),
        all_entries_tags_last(entries) ==> settled_entries(entries) == entries,
    decreases entries,
{
    if entries.len() > 0 {
        let (key, value) = entries.last();
        let rest = entries.drop_last();
        lemma_last_name_is_new(entries);
        lemma_entries_read_back(rest);
        law_read_gives_back_what_was_written(value);
        let head = encode_entries(rest)->Ok_0;
        let all = encode_entries(entries)->Ok_0;
        assert(all.drop_last() =~= head);
        let done = settled_entries(entries);
        assert(done.drop_last() =~= settled_entries(rest));
        assert(done.last() == (key, settled(value)));
        assert(settled(value) is String <==> value is String);
        lemma_no_new_names(rest, key);
        lemma_position(untagged(settled_entries(rest)), key);
        assert(rest.push((key, value)) =~= entries);
    } else {
        assert(entries =~= Seq::empty());
    }
}

proof fn lemma_bare_tag_read(tag: Seq<char>)
    ensures
        decode(bare_tag(tag)) == finish_map(Seq::empty(), Some(tag)),
{
    let entries = bare_tag(tag)->Entries_0;
    assert(entries.drop_last() =~= Seq::empty());
    assert(decode_entries(Seq::empty()) == Ok::<_, WireFault>(
        (Seq::<(Seq<char>, JsView)>::empty(), None::<Seq<char>>),
    ));
    assert(decode(WireView::Text(tag)) == Ok::<_, WireFault>(JsView::String(tag)));
    assert(decode_entries(entries) == Ok::<_, WireFault>(
        (Seq::<(Seq<char>, JsView)>::empty(), Some(tag)),
    ));
}

proof fn lemma_tagged_read(tag: Seq<char>, payload: WireView)
    requires
        payload_key(tag) != type_tag(),
    ensures
        match decode(payload) {
            Ok(value) => decode(tagged(tag, payload)) == match untag(tag, Some(value)) {
                Some(result) => result,
                None => decode(tagged(tag, payload)),
            },
            Err(fault) => decode(tagged(tag, payload)) == Err::<JsView, _>(fault),
        },
{
    let entries = tagged(tag, payload)->Entries_0;
    assert(entries.drop_last() =~= bare_tag(tag)->Entries_0);
    let first = bare_tag(tag)->Entries_0;
    assert(first.drop_last() =~= Seq::empty());
    assert(decode_entries(Seq::empty()) == Ok::<_, WireFault>(
        (Seq::<(Seq<char>, JsView)>::empty(), None::<Seq<char>>),
    ));
    assert(decode(WireView::Text(tag)) == Ok::<_, WireFault>(JsView::String(tag)));
    assert(decode_entries(first) == Ok::<_, WireFault>(
        (Seq::<(Seq<char>, JsView)>::empty(), Some(tag)),
    ));
    if let Ok(value) = decode(payload) {
        let key = payload_key(tag);
        let object = put(Seq::empty(), key, value);
        assert(object =~= seq![(key, value)]);
        assert(decode_entries(entries) == Ok::<_, WireFault>((object, Some(tag))));
        assert(crate::js_value::position(object, key) == Some(0int));
    }
}

proof fn lemma_tags_differ()
    ensures
        "Undefined"@ != "Date"@,
        "Undefined"@ != "Set"@,
        "Undefined"@ != "BigInt"@,
        "Undefined"@ != "JsStream"@,
        "Undefined"@ != "PyStream"@,
        "Date"@ != "Set"@,
        "Date"@ != "BigInt"@,
        "Date"@ != "JsStream"@,
        "Date"@ != "PyStream"@,
        "Set"@ != "BigInt"@,
        "Set"@ != "JsStream"@,
        "Set"@ != "PyStream"@,
        "BigInt"@ != "JsStream"@,
        "BigInt"@ != "PyStream"@,
        "JsStream"@ != "PyStream"@,
        "epoch_ms"@ != type_tag(),
        "values"@ != type_tag(),
        "value"@ != type_tag(),
        "id"@ != type_tag(),
{
    reveal_strlit("Undefined");
    reveal_strlit("Date");
    reveal_strlit("Set");
    reveal_strlit("BigInt");
    reveal_strlit("JsStream");
    reveal_strlit("PyStream");
    reveal_strlit("epoch_ms");
    reveal_strlit("values");
    reveal_strlit("value");
    reveal_strlit("id");
    reveal_strlit("__pydeno_type");
    assert("Undefined"@.len() == 9);
    assert("Date"@.len() == 4);
    assert("Set"@.len() == 3);
    assert("BigInt"@.len() == 6);
    assert("JsStream"@.len() == 8);
    assert("PyStream"@.len() == 8);
    assert("epoch_ms"@.len() == 8);
    assert("values"@.len() == 6);
    assert("value"@.len() == 5);
    assert("id"@.len() == 2);
    assert("__pydeno_type"@.len() == 13);
    assert("JsStream"@[0] != "PyStream"@[0]);
}

} // verus!
