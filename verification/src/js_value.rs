//! `JSValue`: lossless JavaScript value representation.

use crate::bigint::JsBigInt;
use crate::double::Double;
use vstd::prelude::*;

verus! {

/// An `indexmap::IndexSet`, opaque to proofs.
#[verifier::external_type_specification]
#[verifier::external_body]
#[verifier::reject_recursive_types(T)]
#[verifier::reject_recursive_types(S)]
pub struct ExIndexSet<T, S>(indexmap::IndexSet<T, S>);

/// The keys that an `indexmap::IndexSet` holds, in insertion order.
pub uninterp spec fn key_order(keys: indexmap::IndexSet<String>) -> Seq<Seq<char>>;

/// `indexmap::IndexSet::new` makes a set without keys.
#[verifier::external_body]
fn index_new() -> (keys: indexmap::IndexSet<String>)
    ensures
        key_order(keys) == Seq::<Seq<char>>::empty(),
{
    indexmap::IndexSet::new()
}

/// `indexmap::IndexSet::insert_full` appends a key that is not there yet and
/// otherwise leaves the set as it is; it returns the key's position and whether
/// it was appended.
#[verifier::external_body]
fn index_insert_full(keys: &mut indexmap::IndexSet<String>, key: String) -> (r: (usize, bool))
    ensures
        r.1 ==> !key_order(*old(keys)).contains(key@) && key_order(*final(keys)) == key_order(
            *old(keys),
        ).push(key@) && r.0 == key_order(*old(keys)).len(),
        !r.1 ==> key_order(*final(keys)) == key_order(*old(keys)) && r.0 < key_order(
            *old(keys),
        ).len() && key_order(*old(keys))[r.0 as int] == key@,
{
    keys.insert_full(key)
}

/// `indexmap::IndexSet::get_index_of` returns the position of a key, or `None`
/// when the set does not hold it.
#[verifier::external_body]
fn index_get_index_of(keys: &indexmap::IndexSet<String>, key: &str) -> (r: Option<usize>)
    ensures
        match r {
            Some(i) => i < key_order(*keys).len() && key_order(*keys)[i as int] == key@,
            None => !key_order(*keys).contains(key@),
        },
{
    keys.get_index_of(key)
}

/// `indexmap::IndexSet::get_index` returns the key at a position, or `None` past
/// the end.
#[verifier::external_body]
fn index_get_index(keys: &indexmap::IndexSet<String>, index: usize) -> (r: Option<&String>)
    ensures
        match r {
            Some(key) => index < key_order(*keys).len() && key@ == key_order(*keys)[index as int],
            None => index >= key_order(*keys).len(),
        },
{
    keys.get_index(index)
}

/// `indexmap::IndexSet::shift_remove_full` takes a key out, closes the gap and
/// returns the position that the key had, or `None` when the set does not hold it.
#[verifier::external_body]
fn index_shift_remove_full(
    keys: &mut indexmap::IndexSet<String>,
    key: &str,
) -> (r: Option<(usize, String)>)
    ensures
        match r {
            Some(found) => found.0 < key_order(*old(keys)).len() && key_order(
                *old(keys),
            )[found.0 as int] == key@ && found.1@ == key@ && key_order(*final(keys)) == key_order(
                *old(keys),
            ).remove(found.0 as int),
            None => !key_order(*old(keys)).contains(key@) && key_order(*final(keys)) == key_order(
                *old(keys),
            ),
        },
{
    keys.shift_remove_full(key)
}

/// JavaScript value that round-trips accurately (NaN, ±Infinity, BigInt, Date, ...).
#[derive(Debug)]
pub enum JSValue {
    Undefined,
    Null,
    Bool(bool),
    /// Integer within i64 range.
    Int(i64),
    BigInt(JsBigInt),
    /// Float, including NaN and ±Infinity.
    Float(Double),
    String(String),
    /// Uint8Array / ArrayBuffer.
    Bytes(Vec<u8>),
    Array(Vec<JSValue>),
    /// Object in insertion order.
    Object(ObjectMap),
    /// Epoch milliseconds, UTC.
    Date(i64),
    /// Set in insertion order.
    JsSet(Vec<JSValue>),
    /// Function proxied via registry id.
    Function { id: u32 },
    /// ReadableStream proxied via the runtime stream registry.
    JsStream { id: u32 },
    /// Python async iterable placeholder forwarded into JavaScript.
    PyStream { id: u32 },
}

/// The properties of an object in insertion order.
///
/// An `indexmap::IndexSet` holds the keys; the value of the key at position `i`
/// is the `i`-th value. (A map that holds the values itself would be a type
/// that refers to itself through an opaque one.)
#[derive(Debug)]
pub struct ObjectMap {
    keys: indexmap::IndexSet<String>,
    values: Vec<JSValue>,
}

/// What a `JSValue` holds.
#[verifier::ext_equal]
pub enum JsView {
    Undefined,
    Null,
    Bool(bool),
    Int(i64),
    BigInt(int),
    Float(u64),
    String(Seq<char>),
    Bytes(Seq<u8>),
    Array(Seq<JsView>),
    Object(Seq<(Seq<char>, JsView)>),
    Date(i64),
    JsSet(Seq<JsView>),
    Function(u32),
    JsStream(u32),
    PyStream(u32),
}

impl JSValue {
    pub open spec fn view(self) -> JsView
        decreases self,
    {
        match self {
            JSValue::Undefined => JsView::Undefined,
            JSValue::Null => JsView::Null,
            JSValue::Bool(b) => JsView::Bool(b),
            JSValue::Int(i) => JsView::Int(i),
            JSValue::BigInt(value) => JsView::BigInt(value@),
            JSValue::Float(d) => JsView::Float(d.bits),
            JSValue::String(s) => JsView::String(s@),
            JSValue::Bytes(bytes) => JsView::Bytes(bytes@),
            JSValue::Array(items) => JsView::Array(
                Seq::new(
                    items@.len(),
                    |i: int|
                        if 0 <= i < items@.len() {
                            items@[i].view()
                        } else {
                            JsView::Undefined
                        },
                ),
            ),
            JSValue::Object(map) => JsView::Object(map.entries()),
            JSValue::Date(ms) => JsView::Date(ms),
            JSValue::JsSet(items) => JsView::JsSet(
                Seq::new(
                    items@.len(),
                    |i: int|
                        if 0 <= i < items@.len() {
                            items@[i].view()
                        } else {
                            JsView::Undefined
                        },
                ),
            ),
            JSValue::Function { id } => JsView::Function(id),
            JSValue::JsStream { id } => JsView::JsStream(id),
            JSValue::PyStream { id } => JsView::PyStream(id),
        }
    }
}

/// What the values of a sequence hold.
pub open spec fn views(items: Seq<JSValue>) -> Seq<JsView> {
    items.map_values(|item: JSValue| item.view())
}

/// What a `JSValue` holds, by variant.
pub broadcast proof fn lemma_view(value: JSValue)
    ensures
        (#[trigger] value.view()) == match value {
            JSValue::Undefined => JsView::Undefined,
            JSValue::Null => JsView::Null,
            JSValue::Bool(b) => JsView::Bool(b),
            JSValue::Int(i) => JsView::Int(i),
            JSValue::BigInt(value) => JsView::BigInt(value@),
            JSValue::Float(d) => JsView::Float(d.bits),
            JSValue::String(s) => JsView::String(s@),
            JSValue::Bytes(bytes) => JsView::Bytes(bytes@),
            JSValue::Array(items) => JsView::Array(views(items@)),
            JSValue::Object(map) => JsView::Object(map@),
            JSValue::Date(ms) => JsView::Date(ms),
            JSValue::JsSet(items) => JsView::JsSet(views(items@)),
            JSValue::Function { id } => JsView::Function(id),
            JSValue::JsStream { id } => JsView::JsStream(id),
            JSValue::PyStream { id } => JsView::PyStream(id),
        },
{
    match value {
        JSValue::Array(items) => {
            assert(value.view()->Array_0 =~= views(items@));
        },
        JSValue::JsSet(items) => {
            assert(value.view()->JsSet_0 =~= views(items@));
        },
        JSValue::Object(map) => {
            assert(map.entries() =~= map@);
        },
        _ => {},
    }
}

/// The values of an array, a set or an object come below it in the order by
/// which recursion over values ends.
pub proof fn lemma_children_smaller(value: JSValue)
    ensures
        match value {
            JSValue::Array(items) => forall|i: int|
                0 <= i < items@.len() ==> decreases_to!(value => #[trigger] items@[i]),
            JSValue::JsSet(items) => forall|i: int|
                0 <= i < items@.len() ==> decreases_to!(value => #[trigger] items@[i]),
            JSValue::Object(map) => decreases_to!(value => map.value_seq()) && forall|i: int|
                0 <= i < map.value_seq().len() ==> decreases_to!(
                    value => #[trigger] map.value_seq()[i]
                ),
            _ => true,
        },
{
    match value {
        JSValue::Array(items) => {
            assert forall|i: int| 0 <= i < items@.len() implies decreases_to!(
                value => #[trigger] items@[i]
            ) by {
                assert(decreases_to!(value => items));
                assert(decreases_to!(items => items@));
            }
        },
        JSValue::JsSet(items) => {
            assert forall|i: int| 0 <= i < items@.len() implies decreases_to!(
                value => #[trigger] items@[i]
            ) by {
                assert(decreases_to!(value => items));
                assert(decreases_to!(items => items@));
            }
        },
        JSValue::Object(map) => {
            assert(decreases_to!(value => map));
            assert(decreases_to!(map => map.values));
            assert(decreases_to!(map.values => map.values@));
        },
        _ => {},
    }
}

/// Appending a value appends what it holds.
pub broadcast proof fn lemma_views_push(items: Seq<JSValue>, item: JSValue)
    ensures
        #[trigger] views(items.push(item)) == views(items).push(item.view()),
{
    assert(views(items.push(item)) =~= views(items).push(item.view()));
}

/// The position of `key` among the entries, if one of them has it.
pub open spec fn position(entries: Seq<(Seq<char>, JsView)>, key: Seq<char>) -> Option<int>
    decreases entries.len(),
{
    if entries.len() == 0 {
        None
    } else if entries.last().0 == key {
        Some(entries.len() - 1)
    } else {
        position(entries.drop_last(), key)
    }
}

/// No two entries have the same key.
pub open spec fn distinct_keys(entries: Seq<(Seq<char>, JsView)>) -> bool {
    forall|i: int, j: int|
        0 <= i < j < entries.len() ==> (#[trigger] entries[i]).0 != (#[trigger] entries[j]).0
}

/// The value that belongs to `key`.
pub open spec fn lookup(entries: Seq<(Seq<char>, JsView)>, key: Seq<char>) -> Option<JsView> {
    match position(entries, key) {
        Some(i) => Some(entries[i].1),
        None => None,
    }
}

/// The entries after `key` was given `value`: in its old place if it had one,
/// otherwise at the end.
pub open spec fn put(
    entries: Seq<(Seq<char>, JsView)>,
    key: Seq<char>,
    value: JsView,
) -> Seq<(Seq<char>, JsView)> {
    match position(entries, key) {
        Some(i) => entries.update(i, (key, value)),
        None => entries.push((key, value)),
    }
}

/// The entries without the one of `key`.
pub open spec fn without(entries: Seq<(Seq<char>, JsView)>, key: Seq<char>) -> Seq<
    (Seq<char>, JsView),
> {
    match position(entries, key) {
        Some(i) => entries.remove(i),
        None => entries,
    }
}

/// A position that was found holds the key; where none was found, no entry has it.
pub proof fn lemma_position(entries: Seq<(Seq<char>, JsView)>, key: Seq<char>)
    ensures
        match position(entries, key) {
            Some(i) => 0 <= i < entries.len() && entries[i].0 == key,
            None => forall|i: int| 0 <= i < entries.len() ==> (#[trigger] entries[i]).0 != key,
        },
    decreases entries.len(),
{
    if entries.len() > 0 && entries.last().0 != key {
        lemma_position(entries.drop_last(), key);
        if position(entries, key) is None {
            assert forall|i: int| 0 <= i < entries.len() implies (#[trigger] entries[i]).0
                != key by {
                if i < entries.len() - 1 {
                    assert(entries.drop_last()[i].0 != key);
                }
            }
        }
    }
}

/// Among distinct keys the position is the one place where the key stands.
pub proof fn lemma_position_is(entries: Seq<(Seq<char>, JsView)>, key: Seq<char>, i: int)
    requires
        distinct_keys(entries),
        0 <= i < entries.len(),
        entries[i].0 == key,
    ensures
        position(entries, key) == Some(i),
{
    lemma_position(entries, key);
    let found = position(entries, key);
    assert(found is Some) by {
        if found is None {
            assert(entries[i].0 != key);
        }
    }
    let j = found->0;
    if j < i {
        assert(entries[j].0 != entries[i].0);
    } else if i < j {
        assert(entries[i].0 != entries[j].0);
    }
}

impl View for ObjectMap {
    type V = Seq<(Seq<char>, JsView)>;

    closed spec fn view(&self) -> Seq<(Seq<char>, JsView)> {
        Seq::new(self.values@.len(), |i: int| (key_order(self.keys)[i], self.values@[i].view()))
    }
}

impl ObjectMap {
    /// What the properties hold, in order.
    pub closed spec fn entries(self) -> Seq<(Seq<char>, JsView)>
        decreases self,
    {
        Seq::new(
            self.values@.len(),
            |i: int|
                (
                    key_order(self.keys)[i],
                    if 0 <= i < self.values@.len() {
                        self.values@[i].view()
                    } else {
                        JsView::Undefined
                    },
                ),
        )
    }
}

impl ObjectMap {
    #[verifier::type_invariant]
    closed spec fn well_formed(self) -> bool {
        &&& key_order(self.keys).len() == self.values@.len()
        &&& key_order(self.keys).no_duplicates()
    }

    /// The values in the order of their keys.
    pub closed spec fn value_seq(self) -> Seq<JSValue> {
        self.values@
    }

    proof fn lemma_lookup(self, key: Seq<char>)
        requires
            self.well_formed(),
        ensures
            distinct_keys(self@),
            forall|i: int|
                0 <= i < self.values@.len() && #[trigger] key_order(self.keys)[i] == key
                    ==> position(self@, key) == Some(i),
            !key_order(self.keys).contains(key) ==> position(self@, key) is None,
    {
        assert forall|i: int, j: int| 0 <= i < j < self@.len() implies (#[trigger] self@[i]).0 != (
        #[trigger] self@[j]).0 by {
            assert(key_order(self.keys)[i] != key_order(self.keys)[j]);
        }
        assert forall|i: int|
            0 <= i < self.values@.len() && #[trigger] key_order(
                self.keys,
            )[i] == key implies position(self@, key) == Some(i) by {
            lemma_position_is(self@, key, i);
        }
        lemma_position(self@, key);
        if !key_order(self.keys).contains(key) && position(self@, key) is Some {
            assert(key_order(self.keys)[position(self@, key)->0] == key);
        }
    }

    pub fn new() -> (map: ObjectMap)
        ensures
            map@ == Seq::<(Seq<char>, JsView)>::empty(),
    {
        let map = ObjectMap { keys: index_new(), values: Vec::new() };
        assert(map@ == Seq::<(Seq<char>, JsView)>::empty());
        map
    }

    /// The number of properties; no two of them have the same key.
    pub fn len(&self) -> (n: usize)
        ensures
            n == self@.len(),
            n == self.value_seq().len(),
            distinct_keys(self@),
    {
        proof {
            use_type_invariant(self);
            self.lemma_lookup(Seq::empty());
        }
        self.values.len()
    }

    /// Gives `key` the value `value`; a new key goes to the end.
    pub fn insert(&mut self, key: String, value: JSValue)
        ensures
            final(self)@ == put(old(self)@, key@, value.view()),
            distinct_keys(final(self)@),
    {
        let ghost before = *self;
        let ghost name = key@;
        let mut taken = ObjectMap::new();
        core::mem::swap(self, &mut taken);
        proof {
            use_type_invariant(&taken);
            taken.lemma_lookup(key@);
        }
        let ObjectMap { mut keys, mut values } = taken;
        let (at, fresh): (usize, bool) = index_insert_full(&mut keys, key);
        if fresh {
            values.push(value);
        } else {
            values.set(at, value);
        }
        *self = ObjectMap { keys, values };
        proof {
            self.lemma_lookup(name);
            if fresh {
                assert(self@ =~= before@.push((name, value.view())));
            } else {
                assert(self@ =~= before@.update(at as int, (name, value.view())));
            }
        }
    }

    /// The value of `key`.
    pub fn get(&self, key: &str) -> (r: Option<&JSValue>)
        ensures
            match r {
                Some(value) => lookup(self@, key@) == Some(value.view()),
                None => lookup(self@, key@) is None,
            },
    {
        proof {
            use_type_invariant(self);
            self.lemma_lookup(key@);
        }
        match index_get_index_of(&self.keys, key) {
            Some(i) => Some(&self.values[i]),
            None => None,
        }
    }

    /// The position of `key`.
    pub fn index_of(&self, key: &str) -> (r: Option<usize>)
        ensures
            match r {
                Some(i) => position(self@, key@) == Some(i as int) && i < self@.len(),
                None => position(self@, key@) is None,
            },
    {
        proof {
            use_type_invariant(self);
            self.lemma_lookup(key@);
        }
        index_get_index_of(&self.keys, key)
    }

    /// The key at position `index`.
    pub fn key_at(&self, index: usize) -> (key: &String)
        requires
            index < self@.len(),
        ensures
            key@ == self@[index as int].0,
    {
        proof {
            use_type_invariant(self);
        }
        match index_get_index(&self.keys, index) {
            Some(key) => key,
            None => vstd::pervasive::unreached(),
        }
    }

    /// The value at position `index`.
    pub fn value_at(&self, index: usize) -> (value: &JSValue)
        requires
            index < self@.len(),
        ensures
            value.view() == self@[index as int].1,
            *value == self.value_seq()[index as int],
    {
        &self.values[index]
    }

    /// Takes `key` out; the entries after it move up.
    pub fn shift_remove(&mut self, key: &str) -> (r: Option<JSValue>)
        ensures
            match r {
                Some(value) => lookup(old(self)@, key@) == Some(value.view()),
                None => lookup(old(self)@, key@) is None,
            },
            final(self)@ == without(old(self)@, key@),
            distinct_keys(final(self)@),
    {
        let ghost before = *self;
        let mut taken = ObjectMap::new();
        core::mem::swap(self, &mut taken);
        proof {
            use_type_invariant(&taken);
            taken.lemma_lookup(key@);
        }
        let ObjectMap { mut keys, mut values } = taken;
        match index_shift_remove_full(&mut keys, key) {
            Some((at, _)) => {
                let value: JSValue = values.remove(at);
                *self = ObjectMap { keys, values };
                proof {
                    self.lemma_lookup(key@);
                    assert(self@ =~= before@.remove(at as int));
                }
                Some(value)
            },
            None => {
                *self = ObjectMap { keys, values };
                proof {
                    self.lemma_lookup(key@);
                    assert(self@ =~= before@);
                }
                None
            },
        }
    }
}

/// A value that holds what `value` holds.
fn duplicate(value: &JSValue) -> (copy: JSValue)
    ensures
        copy.view() == value.view(),
    decreases *value, 1int,
{
    broadcast use {lemma_view, lemma_views_push};

    proof {
        lemma_children_smaller(*value);
    }
    match value {
        JSValue::Undefined => JSValue::Undefined,
        JSValue::Null => JSValue::Null,
        JSValue::Bool(b) => JSValue::Bool(*b),
        JSValue::Int(i) => JSValue::Int(*i),
        JSValue::BigInt(value) => JSValue::BigInt(value.clone()),
        JSValue::Float(d) => JSValue::Float(*d),
        JSValue::String(s) => JSValue::String(s.clone()),
        JSValue::Bytes(bytes) => {
            let copy: Vec<u8> = bytes.clone();
            assert(copy@ == bytes@);
            JSValue::Bytes(copy)
        },
        JSValue::Array(items) => JSValue::Array(duplicate_items(items)),
        JSValue::Object(map) => {
            let mut copy = ObjectMap::new();
            let mut i: usize = 0;
            let n: usize = map.len();
            assert(map@.take(0) =~= Seq::empty());
            while i < n
                invariant
                    i <= n,
                    n == map@.len(),
                    n == map.value_seq().len(),
                    distinct_keys(map@),
                    *value == JSValue::Object(*map),
                    forall|k: int|
                        0 <= k < map.value_seq().len() ==> decreases_to!(
                            *value => #[trigger] map.value_seq()[k]
                        ),
                    copy@ == map@.take(i as int),
                decreases n - i,
            {
                let child: JSValue = duplicate(map.value_at(i));
                proof {
                    let key = map@[i as int].0;
                    lemma_position(copy@, key);
                    if position(copy@, key) is Some {
                        assert(map@[position(copy@, key)->0].0 != map@[i as int].0);
                    }
                    assert(map@.take(i + 1) =~= map@.take(i as int).push(map@[i as int]));
                }
                copy.insert(map.key_at(i).clone(), child);
                i = i + 1;
            }
            assert(map@.take(i as int) =~= map@);
            JSValue::Object(copy)
        },
        JSValue::Date(ms) => JSValue::Date(*ms),
        JSValue::JsSet(items) => JSValue::JsSet(duplicate_items(items)),
        JSValue::Function { id } => JSValue::Function { id: *id },
        JSValue::JsStream { id } => JSValue::JsStream { id: *id },
        JSValue::PyStream { id } => JSValue::PyStream { id: *id },
    }
}

fn duplicate_items(items: &Vec<JSValue>) -> (copy: Vec<JSValue>)
    ensures
        views(copy@) == views(items@),
    decreases items@, 0int,
{
    broadcast use lemma_views_push;

    let mut copy: Vec<JSValue> = Vec::new();
    let mut i: usize = 0;
    assert(views(copy@) =~= views(items@).take(0));
    while i < items.len()
        invariant
            i <= items@.len(),
            views(copy@) == views(items@).take(i as int),
        decreases items@.len() - i,
    {
        assert(decreases_to!(items@ => items@[i as int]));
        copy.push(duplicate(&items[i]));
        assert(views(items@).take(i + 1) =~= views(items@).take(i as int).push(
            items@[i as int].view(),
        ));
        i = i + 1;
    }
    assert(views(items@).take(i as int) =~= views(items@));
    copy
}

impl Clone for JSValue {
    fn clone(&self) -> (copy: Self)
        ensures
            copy.view() == self.view(),
    {
        duplicate(self)
    }
}

} // verus!
