//! Conversion between `JSValue` and what is read of, or made as, a Python object.

use crate::bigint::{magnitude_len, parse_decimal, JsBigInt};
use crate::double::{clamp, Double};
use crate::error::RuntimeError;
use crate::js_value::{
    lemma_children_smaller, lemma_view, lemma_views_push, lookup, position, views, JSValue, JsView,
    ObjectMap,
};
use crate::limits::{
    saturating_product, slot_bytes, stack_count, word_bytes, LimitState, LimitTracker,
};
use crate::text::{byte_len, str_bytes, str_eq};
use vstd::prelude::*;

verus! {

broadcast use {lemma_view, lemma_views_push};

/// A Python object to be made.
#[derive(Debug)]
pub enum PyValue {
    /// The `undefined` singleton.
    Undefined,
    NoneValue,
    Bool(bool),
    Int(i64),
    BigInt(JsBigInt),
    Float(Double),
    Str(String),
    Bytes(Vec<u8>),
    List(Vec<PyValue>),
    PySet(Vec<PyValue>),
    Dict(Vec<(String, PyValue)>),
    /// A timezone-aware UTC datetime.
    DateTime { epoch_ms: i64 },
    Function { id: u32 },
    Stream { id: u32 },
}

#[verifier::ext_equal]
pub enum PyView {
    Undefined,
    NoneValue,
    Bool(bool),
    Int(i64),
    BigInt(int),
    Float(u64),
    Str(Seq<char>),
    Bytes(Seq<u8>),
    List(Seq<PyView>),
    PySet(Seq<PyView>),
    Dict(Seq<(Seq<char>, PyView)>),
    DateTime(i64),
    Function(u32),
    Stream(u32),
}

impl PyValue {
    pub open spec fn view(self) -> PyView
        decreases self,
    {
        match self {
            PyValue::Undefined => PyView::Undefined,
            PyValue::NoneValue => PyView::NoneValue,
            PyValue::Bool(b) => PyView::Bool(b),
            PyValue::Int(i) => PyView::Int(i),
            PyValue::BigInt(value) => PyView::BigInt(value@),
            PyValue::Float(d) => PyView::Float(d.bits),
            PyValue::Str(s) => PyView::Str(s@),
            PyValue::Bytes(bytes) => PyView::Bytes(bytes@),
            PyValue::List(items) => PyView::List(
                Seq::new(
                    items@.len(),
                    |i: int|
                        if 0 <= i < items@.len() {
                            items@[i].view()
                        } else {
                            PyView::Undefined
                        },
                ),
            ),
            PyValue::PySet(items) => PyView::PySet(
                Seq::new(
                    items@.len(),
                    |i: int|
                        if 0 <= i < items@.len() {
                            items@[i].view()
                        } else {
                            PyView::Undefined
                        },
                ),
            ),
            PyValue::Dict(entries) => PyView::Dict(
                Seq::new(
                    entries@.len(),
                    |i: int|
                        (
                            entries@[i].0@,
                            if 0 <= i < entries@.len() {
                                entries@[i].1.view()
                            } else {
                                PyView::Undefined
                            },
                        ),
                ),
            ),
            PyValue::DateTime { epoch_ms } => PyView::DateTime(epoch_ms),
            PyValue::Function { id } => PyView::Function(id),
            PyValue::Stream { id } => PyView::Stream(id),
        }
    }
}

pub open spec fn py_views(items: Seq<PyValue>) -> Seq<PyView> {
    items.map_values(|item: PyValue| item.view())
}

pub open spec fn dict_views(entries: Seq<(String, PyValue)>) -> Seq<(Seq<char>, PyView)> {
    entries.map_values(|entry: (String, PyValue)| (entry.0@, entry.1.view()))
}

proof fn lemma_py_view(value: PyValue)
    ensures
        value.view() == match value {
            PyValue::List(items) => PyView::List(py_views(items@)),
            PyValue::PySet(items) => PyView::PySet(py_views(items@)),
            PyValue::Dict(entries) => PyView::Dict(dict_views(entries@)),
            _ => value.view(),
        },
{
    match value {
        PyValue::List(items) => {
            assert(value.view()->List_0 =~= py_views(items@));
        },
        PyValue::PySet(items) => {
            assert(value.view()->PySet_0 =~= py_views(items@));
        },
        PyValue::Dict(entries) => {
            assert(value.view()->Dict_0 =~= dict_views(entries@));
        },
        _ => {},
    }
}

/// `outcome` once `bytes` bytes were counted, or the refusal.
pub open spec fn metered<T>(
    state: LimitState,
    bytes: nat,
    outcome: Result<T, Seq<char>>,
) -> (Result<T, Seq<char>>, LimitState) {
    let counted = state.charged(bytes);
    match counted.size_refusal() {
        Some(text) => (Err(text), counted),
        None => (outcome, counted),
    }
}

/// `outcome` once `first` and then `second` bytes were counted, or the refusal.
pub open spec fn metered_twice<T>(
    state: LimitState,
    first: nat,
    second: nat,
    outcome: Result<T, Seq<char>>,
) -> (Result<T, Seq<char>>, LimitState) {
    let counted = state.charged(first);
    match counted.size_refusal() {
        Some(text) => (Err(text), counted),
        None => metered(counted, second, outcome),
    }
}

/// The Python object made of a value, and the limits afterwards. A level is
/// entered for the value and left again once it was converted.
pub open spec fn to_python(value: JsView, with_handle: bool, state: LimitState) -> (
    Result<PyView, Seq<char>>,
    LimitState,
)
    decreases value, 1int,
{
    let entered = state.entered();
    match entered.level_refusal() {
        Some(text) => (Err(text), entered),
        None => {
            let (result, after) = to_python_inner(value, with_handle, entered);
            (result, after.exited())
        },
    }
}

/// The Python object made of a value that holds no others, within its level.
pub open spec fn scalar_python(value: JsView, with_handle: bool, state: LimitState) -> (
    Result<PyView, Seq<char>>,
    LimitState,
) {
    match value {
        JsView::Undefined => (Ok(PyView::Undefined), state),
        JsView::Null => metered(state, 4, Ok(PyView::NoneValue)),
        JsView::Bool(b) => metered(state, 1, Ok(PyView::Bool(b))),
        JsView::Int(i) => metered(state, 8, Ok(PyView::Int(i))),
        JsView::BigInt(i) => metered(state, magnitude_len(i), Ok(PyView::BigInt(i))),
        JsView::Float(bits) => metered(state, 8, Ok(PyView::Float(bits))),
        JsView::String(s) => metered_twice(state, byte_len(s), 16, Ok(PyView::Str(s))),
        JsView::Bytes(bytes) => metered(state, bytes.len(), Ok(PyView::Bytes(bytes))),
        JsView::Date(ms) => metered(state, 16, Ok(PyView::DateTime(ms))),
        JsView::Function(id) => metered(
            state,
            8,
            if with_handle {
                Ok(PyView::Function(id))
            } else {
                Err("RuntimeHandle required to convert JSValue::Function"@)
            },
        ),
        JsView::JsStream(id) => metered(
            state,
            8,
            if with_handle {
                Ok(PyView::Stream(id))
            } else {
                Err("RuntimeHandle required to convert JSValue::JsStream"@)
            },
        ),
        _ => (Err("PyStream placeholders cannot be materialized on the Python side"@), state),
    }
}

/// The Python object made of a value within its level.
pub open spec fn to_python_inner(value: JsView, with_handle: bool, state: LimitState) -> (
    Result<PyView, Seq<char>>,
    LimitState,
)
    decreases value, 0int,
{
    match value {
        JsView::Array(items) => {
            let (header, counted) = metered_twice(
                state,
                16,
                saturating_product(items.len(), word_bytes()),
                Ok(()),
            );
            match header {
                Err(text) => (Err(text), counted),
                Ok(_) => match items_to_python(items, with_handle, counted) {
                    (Ok(made), after) => (Ok(PyView::List(made)), after),
                    (Err(text), after) => (Err(text), after),
                },
            }
        },
        JsView::JsSet(items) => {
            let (header, counted) = metered_twice(
                state,
                24,
                saturating_product(items.len(), word_bytes()),
                Ok(()),
            );
            match header {
                Err(text) => (Err(text), counted),
                Ok(_) => match items_to_python(items, with_handle, counted) {
                    (Ok(made), after) => (Ok(PyView::PySet(made)), after),
                    (Err(text), after) => (Err(text), after),
                },
            }
        },
        JsView::Object(entries) => {
            let (header, counted) = metered_twice(
                state,
                24,
                saturating_product(entries.len(), word_bytes() * 2),
                Ok(()),
            );
            match header {
                Err(text) => (Err(text), counted),
                Ok(_) => match tagged_meaning(entries) {
                    TagMeaning::Plain => match entries_to_python(entries, with_handle, counted) {
                        (Ok(made), after) => (Ok(PyView::Dict(made)), after),
                        (Err(text), after) => (Err(text), after),
                    },
                    TagMeaning::Value(result) => (result, counted),
                    TagMeaning::SetAt(i) => {
                        if 0 <= i < entries.len() {
                            match entries[i].1 {
                                JsView::Array(items) => match items_to_python(
                                    items,
                                    with_handle,
                                    counted,
                                ) {
                                    (Ok(made), after) => (Ok(PyView::PySet(made)), after),
                                    (Err(text), after) => (Err(text), after),
                                },
                                _ => (Ok(PyView::Undefined), counted),
                            }
                        } else {
                            (Ok(PyView::Undefined), counted)
                        }
                    },
                },
            }
        },
        _ => scalar_python(value, with_handle, state),
    }
}

/// What an object's type tag makes of it on the Python side.
pub enum TagMeaning {
    /// No tag, or one that means nothing here: a dictionary.
    Plain,
    /// A value that needs no further conversion.
    Value(Result<PyView, Seq<char>>),
    /// A set of the items of the array at this position.
    SetAt(int),
}

pub open spec fn tagged_meaning(entries: Seq<(Seq<char>, JsView)>) -> TagMeaning {
    match lookup(entries, "__pydeno_type"@) {
        Some(JsView::String(tag)) => if tag == "Undefined"@ {
            TagMeaning::Value(Ok(PyView::Undefined))
        } else if tag == "Date"@ {
            match lookup(entries, "epoch_ms"@) {
                Some(JsView::Int(ms)) => TagMeaning::Value(Ok(PyView::DateTime(ms))),
                Some(JsView::Float(bits)) => TagMeaning::Value(
                    if (Double { bits }).finite() {
                        Ok(
                            PyView::DateTime(
                                clamp(
                                    (Double { bits }).trunc(),
                                    i64::MIN as int,
                                    i64::MAX as int,
                                ) as i64,
                            ),
                        )
                    } else {
                        Err("Invalid epoch_ms payload for Date"@)
                    },
                ),
                Some(_) => TagMeaning::Value(Err("Invalid epoch_ms payload for Date"@)),
                None => TagMeaning::Plain,
            }
        } else if tag == "Set"@ {
            match lookup(entries, "values"@) {
                Some(JsView::Array(_)) => TagMeaning::SetAt(position(entries, "values"@)->0),
                _ => TagMeaning::Plain,
            }
        } else if tag == "BigInt"@ {
            match lookup(entries, "value"@) {
                Some(JsView::String(text)) => TagMeaning::Value(
                    match parse_decimal(text) {
                        Some(i) => Ok(PyView::BigInt(i)),
                        None => Err("Invalid BigInt payload from JavaScript"@),
                    },
                ),
                _ => TagMeaning::Plain,
            }
        } else {
            TagMeaning::Plain
        },
        _ => TagMeaning::Plain,
    }
}

/// The Python objects made of the items in order, or the first failure.
pub open spec fn items_to_python(items: Seq<JsView>, with_handle: bool, state: LimitState) -> (
    Result<Seq<PyView>, Seq<char>>,
    LimitState,
)
    decreases items, 2int,
{
    if items.len() == 0 {
        (Ok(Seq::empty()), state)
    } else {
        match items_to_python(items.drop_last(), with_handle, state) {
            (Ok(made), before) => match to_python(items.last(), with_handle, before) {
                (Ok(last), after) => (Ok(made.push(last)), after),
                (Err(text), after) => (Err(text), after),
            },
            (Err(text), before) => (Err(text), before),
        }
    }
}

/// The dictionary entries made of the properties in order, or the first failure.
pub open spec fn entries_to_python(
    entries: Seq<(Seq<char>, JsView)>,
    with_handle: bool,
    state: LimitState,
) -> (Result<Seq<(Seq<char>, PyView)>, Seq<char>>, LimitState)
    decreases entries, 2int,
{
    if entries.len() == 0 {
        (Ok(Seq::empty()), state)
    } else {
        match entries_to_python(entries.drop_last(), with_handle, state) {
            (Ok(made), before) => {
                let (key, value) = entries.last();
                match metered_twice(before, byte_len(key), 8, Ok(())) {
                    (Err(text), after) => (Err(text), after),
                    (Ok(_), counted) => match to_python(value, with_handle, counted) {
                        (Ok(last), after) => (Ok(made.push((key, last))), after),
                        (Err(text), after) => (Err(text), after),
                    },
                }
            },
            (Err(text), before) => (Err(text), before),
        }
    }
}

/// A made Python object with the failure by its text.
pub open spec fn py_result(result: Result<PyValue, String>) -> Result<PyView, Seq<char>> {
    match result {
        Ok(value) => Ok(value.view()),
        Err(text) => Err(text@),
    }
}

/// Success or the text of the failure.
pub open spec fn outcome_view(result: Result<(), String>) -> Result<(), Seq<char>> {
    match result {
        Ok(_) => Ok(()),
        Err(text) => Err(text@),
    }
}

/// The text of an internal error.
fn refusal_of(err: RuntimeError) -> (text: String)
    requires
        err is Internal,
    ensures
        err@ == crate::error::ErrorView::Internal(text@),
{
    match err {
        RuntimeError::Internal { context } => context,
        _ => vstd::pervasive::unreached(),
    }
}

/// Enters a level; the failure is the text of the refusal.
pub(crate) fn enter(tracker: &mut LimitTracker) -> (result: Result<(), String>)
    ensures
        final(tracker)@ == old(tracker)@.entered(),
        outcome_view(result) == match old(tracker)@.entered().level_refusal() {
            Some(text) => Err(text),
            None => Ok(()),
        },
{
    match tracker.enter() {
        Ok(()) => Ok(()),
        Err(err) => Err(refusal_of(err)),
    }
}

/// Counts `bytes`; the failure is the text of the refusal.
pub(crate) fn charge(tracker: &mut LimitTracker, bytes: usize) -> (result: Result<(), String>)
    ensures
        (outcome_view(result), final(tracker)@) == metered(old(tracker)@, bytes as nat, Ok(())),
{
    match tracker.add_bytes(bytes) {
        Ok(()) => Ok(()),
        Err(err) => Err(refusal_of(err)),
    }
}

/// Counts `first` and then `second` bytes.
pub(crate) fn charge_twice(tracker: &mut LimitTracker, first: usize, second: usize) -> (result:
    Result<(), String>)
    ensures
        (outcome_view(result), final(tracker)@) == metered_twice(
            old(tracker)@,
            first as nat,
            second as nat,
            Ok(()),
        ),
{
    match charge(tracker, first) {
        Ok(()) => charge(tracker, second),
        Err(text) => Err(text),
    }
}

proof fn lemma_items_to_python_prefix(
    items: Seq<JsView>,
    n: int,
    with_handle: bool,
    state: LimitState,
)
    requires
        0 <= n <= items.len(),
    ensures
        items_to_python(items.take(n), with_handle, state).0 is Err ==> items_to_python(
            items,
            with_handle,
            state,
        ) == items_to_python(items.take(n), with_handle, state),
    decreases items.len() - n,
{
    if n < items.len() {
        lemma_items_to_python_prefix(items, n + 1, with_handle, state);
        assert(items.take(n + 1).drop_last() =~= items.take(n));
    } else {
        assert(items.take(n) =~= items);
    }
}

proof fn lemma_entries_to_python_prefix(
    entries: Seq<(Seq<char>, JsView)>,
    n: int,
    with_handle: bool,
    state: LimitState,
)
    requires
        0 <= n <= entries.len(),
    ensures
        entries_to_python(entries.take(n), with_handle, state).0 is Err ==> entries_to_python(
            entries,
            with_handle,
            state,
        ) == entries_to_python(entries.take(n), with_handle, state),
    decreases entries.len() - n,
{
    if n < entries.len() {
        lemma_entries_to_python_prefix(entries, n + 1, with_handle, state);
        assert(entries.take(n + 1).drop_last() =~= entries.take(n));
    } else {
        assert(entries.take(n) =~= entries);
    }
}

/// Each of these is what measuring the stack may give.
pub open spec fn given_by<F: Fn() -> Option<usize>>(measure: F, seen: Seq<Option<usize>>) -> bool {
    forall|i: int| 0 <= i < seen.len() ==> call_ensures(measure, (), #[trigger] seen[i])
}

/// Convert a JSValue into a Python object (a handle is needed for functions and
/// streams). Applies **no** limits but the stack's: evaluation results were already
/// metered when read out of the engine. Guest-supplied input must use
/// [`js_value_to_python_tracked`].
pub fn js_value_to_python<F: Fn() -> Option<usize>>(
    value: &JSValue,
    with_handle: bool,
    optimized: bool,
    measure: &F,
) -> (result: Result<PyValue, String>)
    requires
        call_requires(*measure, ()),
    ensures
        exists|seen: Seq<Option<usize>>, after: LimitState|
            {
                &&& given_by(*measure, seen)
                &&& #[trigger] converts(
                    value.view(),
                    with_handle,
                    unlimited(optimized),
                    seen,
                    py_result(result),
                    after,
                )
            },
{
    let mut tracker = LimitTracker::new(usize::MAX, usize::MAX);
    tracker.note_stack(None, optimized);
    js_value_to_python_tracked(value, with_handle, &mut tracker, measure)
}

/// No limits but the stack's.
pub open spec fn unlimited(optimized: bool) -> LimitState {
    LimitState { optimized, ..LimitState::fresh(usize::MAX as nat, usize::MAX as nat) }
}

/// Convert a JSValue into a Python object against a caller-supplied tracker, so
/// that the limits bind a whole call, not each argument. `measure` tells how much
/// stack is in use on this thread (`None` without an anchor); it is asked as each
/// level is entered. [`js_value_to_python_told`] says what comes of a stack that is
/// found where it was.
pub fn js_value_to_python_tracked<F: Fn() -> Option<usize>>(
    value: &JSValue,
    with_handle: bool,
    tracker: &mut LimitTracker,
    measure: &F,
) -> (result: Result<PyValue, String>)
    requires
        call_requires(*measure, ()),
    ensures
        exists|seen: Seq<Option<usize>>|
            {
                &&& given_by(*measure, seen)
                &&& #[trigger] converts(
                    value.view(),
                    with_handle,
                    old(tracker)@,
                    seen,
                    py_result(result),
                    final(tracker)@,
                )
            },
{
    convert_value(value, with_handle, tracker, measure).0
}

/// Convert a JSValue into a Python object against a tracker that was told how much
/// stack is in use, where that does not change on the way.
pub fn js_value_to_python_told(value: &JSValue, with_handle: bool, tracker: &mut LimitTracker) -> (
    result: Result<PyValue, String>)
    ensures
        (py_result(result), final(tracker)@) == to_python(
            value.view(),
            with_handle,
            old(tracker)@,
        ),
{
    let used: Option<usize> = tracker.stack_used();
    let told = || -> (found: Option<usize>)
        ensures
            found == used,
        { used };
    let result: Result<PyValue, String> = js_value_to_python_tracked(
        value,
        with_handle,
        tracker,
        &told,
    );
    proof {
        let before = old(tracker)@;
        let seen = choose|seen: Seq<Option<usize>>|
            {
                &&& given_by(told, seen)
                &&& #[trigger] converts(
                    value.view(),
                    with_handle,
                    before,
                    seen,
                    py_result(result),
                    tracker@,
                )
            };
        let none = Seq::<Option<usize>>::empty();
        assert(seen + none =~= seen);
        assert(to_python(value.view(), with_handle, before.expecting(seen + none)) == (
            py_result(result),
            tracker@.expecting(none),
        ));
        old(tracker).lemma_nothing_ahead();
        tracker.lemma_nothing_ahead();
        assert(before.expecting(Seq::empty()) == before);
        assert(tracker@.expecting(Seq::empty()) == tracker@);
        lemma_steady_stack(value.view(), with_handle, before.expecting(seen));
    }
    result
}

/// The stack is found where it was last measured.
spec fn steady_stack(state: LimitState) -> bool {
    forall|i: int|
        0 <= i < state.ahead.len() ==> stack_count(#[trigger] state.ahead[i]) == state.stack
}

/// The two states differ only in that the stack is measured on the way.
spec fn same_but_told(state: LimitState, told: LimitState) -> bool {
    &&& steady_stack(state)
    &&& state.expecting(Seq::empty()) == told
}

proof fn lemma_steady_stack(value: JsView, with_handle: bool, state: LimitState)
    requires
        steady_stack(state),
    ensures
        ({
            let (result, after) = to_python(value, with_handle, state);
            let (same, told) = to_python(value, with_handle, state.expecting(Seq::empty()));
            result == same && same_but_told(after, told)
        }),
    decreases value, 1int,
{
    let entered = state.entered();
    let told = state.expecting(Seq::empty()).entered();
    assert(same_but_told(entered, told)) by {
        assert forall|i: int| 0 <= i < entered.ahead.len() implies stack_count(
            #[trigger] entered.ahead[i],
        ) == entered.stack by {
            assert(entered.ahead[i] == state.ahead[i + 1]);
        }
        if state.ahead.len() > 0 {
            assert(stack_count(state.ahead[0]) == state.stack);
        }
    }
    assert(told == entered.expecting(Seq::empty()));
    assert(entered.level_refusal() == told.level_refusal());
    lemma_steady_inner(value, with_handle, entered);
}

/// Counting leaves the stack as it is found.
proof fn lemma_metered_steady(state: LimitState, first: nat, second: nat)
    requires
        steady_stack(state),
    ensures
        ({
            let (header, counted) = metered_twice::<()>(state, first, second, Ok(()));
            &&& steady_stack(counted)
            &&& metered_twice::<()>(state.expecting(Seq::empty()), first, second, Ok(())) == (
                header,
                counted.expecting(Seq::empty()),
            )
        }),
{
    let (header, counted) = metered_twice::<()>(state, first, second, Ok(()));
    assert(counted.ahead == state.ahead && counted.stack == state.stack);
    assert(steady_stack(counted)) by {
        assert forall|i: int| 0 <= i < counted.ahead.len() implies stack_count(
            #[trigger] counted.ahead[i],
        ) == counted.stack by {
            assert(stack_count(state.ahead[i]) == state.stack);
        }
    }
}

proof fn lemma_steady_inner(value: JsView, with_handle: bool, entered: LimitState)
    requires
        steady_stack(entered),
    ensures
        ({
            let (result, after) = to_python_inner(value, with_handle, entered);
            let (same, told) = to_python_inner(value, with_handle, entered.expecting(Seq::empty()));
            result == same && same_but_told(after, told)
        }),
    decreases value, 0int,
{
    match value {
        JsView::Array(items) => {
            let slots = saturating_product(items.len(), word_bytes());
            lemma_metered_steady(entered, 16, slots);
            lemma_steady_items(
                items,
                with_handle,
                metered_twice::<()>(entered, 16, slots, Ok(())).1,
            );
        },
        JsView::JsSet(items) => {
            let slots = saturating_product(items.len(), word_bytes());
            lemma_metered_steady(entered, 24, slots);
            lemma_steady_items(
                items,
                with_handle,
                metered_twice::<()>(entered, 24, slots, Ok(())).1,
            );
        },
        JsView::Object(entries) => {
            let slots = saturating_product(entries.len(), word_bytes() * 2);
            lemma_metered_steady(entered, 24, slots);
            let counted = metered_twice::<()>(entered, 24, slots, Ok(())).1;
            match tagged_meaning(entries) {
                TagMeaning::Plain => {
                    lemma_steady_entries(entries, with_handle, counted);
                },
                TagMeaning::Value(result) => {},
                TagMeaning::SetAt(i) => {
                    if 0 <= i < entries.len() {
                        if let JsView::Array(items) = entries[i].1 {
                            lemma_steady_items(items, with_handle, counted);
                        }
                    }
                },
            }
        },
        _ => {
            lemma_scalar_expecting(value, with_handle, entered, Seq::empty());
            let (result, after) = scalar_python(value, with_handle, entered);
            assert(to_python_inner(value, with_handle, entered) == (result, after));
            assert(to_python_inner(value, with_handle, entered.expecting(Seq::empty())) == (
                result,
                after.expecting(Seq::empty()),
            ));
            assert(steady_stack(after)) by {
                assert forall|i: int| 0 <= i < after.ahead.len() implies stack_count(
                    #[trigger] after.ahead[i],
                ) == after.stack by {
                    assert(stack_count(entered.ahead[i]) == entered.stack);
                }
            }
        },
    }
}

proof fn lemma_steady_items(items: Seq<JsView>, with_handle: bool, state: LimitState)
    requires
        steady_stack(state),
    ensures
        ({
            let (result, after) = items_to_python(items, with_handle, state);
            let (same, told) = items_to_python(items, with_handle, state.expecting(Seq::empty()));
            result == same && same_but_told(after, told)
        }),
    decreases items, 2int,
{
    if items.len() > 0 {
        lemma_steady_items(items.drop_last(), with_handle, state);
        let (_, before) = items_to_python(items.drop_last(), with_handle, state);
        lemma_steady_stack(items.last(), with_handle, before);
    }
}

proof fn lemma_steady_entries(
    entries: Seq<(Seq<char>, JsView)>,
    with_handle: bool,
    state: LimitState,
)
    requires
        steady_stack(state),
    ensures
        ({
            let (result, after) = entries_to_python(entries, with_handle, state);
            let (same, told) = entries_to_python(
                entries,
                with_handle,
                state.expecting(Seq::empty()),
            );
            result == same && same_but_told(after, told)
        }),
    decreases entries, 2int,
{
    if entries.len() > 0 {
        lemma_steady_entries(entries.drop_last(), with_handle, state);
        let (_, before) = entries_to_python(entries.drop_last(), with_handle, state);
        let (key, value) = entries.last();
        let (_, counted) = metered_twice::<()>(before, byte_len(key), 8, Ok(()));
        lemma_steady_stack(value, with_handle, counted);
    }
}

/// The conversion found the stack at `seen`, one measurement for each level that it
/// entered, and went as these make it: whatever would have been measured afterwards is
/// left over.
pub open spec fn converts(
    value: JsView,
    with_handle: bool,
    before: LimitState,
    seen: Seq<Option<usize>>,
    result: Result<PyView, Seq<char>>,
    after: LimitState,
) -> bool {
    forall|rest: Seq<Option<usize>>| #[trigger]
        to_python(value, with_handle, before.expecting(seen + rest)) == (
            result,
            after.expecting(rest),
        )
}

spec fn converts_inner(
    value: JsView,
    with_handle: bool,
    before: LimitState,
    seen: Seq<Option<usize>>,
    result: Result<PyView, Seq<char>>,
    after: LimitState,
) -> bool {
    forall|rest: Seq<Option<usize>>| #[trigger]
        to_python_inner(value, with_handle, before.expecting(seen + rest)) == (
            result,
            after.expecting(rest),
        )
}

/// The same of a conversion of several values.
pub open spec fn converts_items(
    items: Seq<JsView>,
    with_handle: bool,
    before: LimitState,
    seen: Seq<Option<usize>>,
    result: Result<Seq<PyView>, Seq<char>>,
    after: LimitState,
) -> bool {
    forall|rest: Seq<Option<usize>>| #[trigger]
        items_to_python(items, with_handle, before.expecting(seen + rest)) == (
            result,
            after.expecting(rest),
        )
}

spec fn converts_entries(
    entries: Seq<(Seq<char>, JsView)>,
    with_handle: bool,
    before: LimitState,
    seen: Seq<Option<usize>>,
    result: Result<Seq<(Seq<char>, PyView)>, Seq<char>>,
    after: LimitState,
) -> bool {
    forall|rest: Seq<Option<usize>>| #[trigger]
        entries_to_python(entries, with_handle, before.expecting(seen + rest)) == (
            result,
            after.expecting(rest),
        )
}

fn convert_value<F: Fn() -> Option<usize>>(
    value: &JSValue,
    with_handle: bool,
    tracker: &mut LimitTracker,
    measure: &F,
) -> (r: (Result<PyValue, String>, Ghost<Seq<Option<usize>>>))
    requires
        call_requires(*measure, ()),
    ensures
        given_by(*measure, r.1@),
        converts(
            value.view(),
            with_handle,
            old(tracker)@,
            r.1@,
            py_result(r.0),
            final(tracker)@,
        ),
    decreases *value, 1int,
{
    let ghost before = tracker@;
    let used: Option<usize> = measure();
    tracker.measure(used);
    proof {
        tracker.lemma_nothing_ahead();
        lemma_entering(before, used);
    }
    match enter(tracker) {
        Ok(()) => {},
        Err(text) => {
            let ghost seen = seq![used];
            assert(converts(value.view(), with_handle, before, seen, Err(text@), tracker@));
            return (Err(text), Ghost(seen));
        },
    }
    let ghost entered = tracker@;
    let (result, inner): (Result<PyValue, String>, Ghost<Seq<Option<usize>>>) = convert_inner(
        value,
        with_handle,
        tracker,
        measure,
    );
    let ghost seen = seq![used] + inner@;
    let ghost within = tracker@;
    tracker.exit();
    proof {
        assert forall|rest: Seq<Option<usize>>| #[trigger]
            to_python(value.view(), with_handle, before.expecting(seen + rest)) == (
                py_result(result),
                tracker@.expecting(rest),
            ) by {
            assert(seen + rest =~= seq![used] + (inner@ + rest));
            assert(before.expecting(seq![used] + (inner@ + rest)).entered() == entered.expecting(
                inner@ + rest,
            ));
            assert(to_python_inner(
                value.view(),
                with_handle,
                entered.expecting(inner@ + rest),
            ) == (py_result(result), within.expecting(rest)));
        }
    }
    (result, Ghost(seen))
}

/// A level that is entered is found at the first measurement.
proof fn lemma_entering(state: LimitState, used: Option<usize>)
    ensures
        forall|rest: Seq<Option<usize>>| #[trigger]
            state.expecting(seq![used] + rest).entered() == state.measured(used).expecting(
                Seq::empty(),
            ).entered().expecting(rest),
{
    assert forall|rest: Seq<Option<usize>>| #[trigger]
        state.expecting(seq![used] + rest).entered() == state.measured(used).expecting(
            Seq::empty(),
        ).entered().expecting(rest) by {
        assert((seq![used] + rest).drop_first() =~= rest);
    }
}

/// The value holds no other values.
spec fn is_scalar(value: JSValue) -> bool {
    !(value is Array) && !(value is JsSet) && !(value is Object)
}

fn scalar_to_python(value: &JSValue, with_handle: bool, tracker: &mut LimitTracker) -> (result:
    Result<PyValue, String>)
    requires
        is_scalar(*value),
    ensures
        (py_result(result), final(tracker)@) == to_python_inner(
            value.view(),
            with_handle,
            old(tracker)@,
        ),
{
    match value {
        JSValue::Undefined => Ok(PyValue::Undefined),
        JSValue::Null => match charge(tracker, 4) {
            Ok(()) => Ok(PyValue::NoneValue),
            Err(text) => Err(text),
        },
        JSValue::Bool(b) => match charge(tracker, 1) {
            Ok(()) => Ok(PyValue::Bool(*b)),
            Err(text) => Err(text),
        },
        JSValue::Int(i) => match charge(tracker, 8) {
            Ok(()) => Ok(PyValue::Int(*i)),
            Err(text) => Err(text),
        },
        JSValue::BigInt(bigint) => match charge(tracker, bigint.magnitude_bytes()) {
            Ok(()) => Ok(PyValue::BigInt(bigint.clone())),
            Err(text) => Err(text),
        },
        JSValue::Float(d) => match charge(tracker, 8) {
            Ok(()) => Ok(PyValue::Float(*d)),
            Err(text) => Err(text),
        },
        JSValue::String(s) => match charge_twice(tracker, str_bytes(s), 16) {
            Ok(()) => Ok(PyValue::Str(s.clone())),
            Err(text) => Err(text),
        },
        JSValue::Bytes(bytes) => match charge(tracker, bytes.len()) {
            Ok(()) => {
                let copy: Vec<u8> = bytes.clone();
                assert(copy@ == bytes@);
                Ok(PyValue::Bytes(copy))
            },
            Err(text) => Err(text),
        },
        JSValue::Date(ms) => match charge(tracker, 16) {
            Ok(()) => Ok(PyValue::DateTime { epoch_ms: *ms }),
            Err(text) => Err(text),
        },
        JSValue::Function { id } => match charge(tracker, 8) {
            Ok(()) => if with_handle {
                Ok(PyValue::Function { id: *id })
            } else {
                Err("RuntimeHandle required to convert JSValue::Function".to_owned())
            },
            Err(text) => Err(text),
        },
        JSValue::JsStream { id } => match charge(tracker, 8) {
            Ok(()) => if with_handle {
                Ok(PyValue::Stream { id: *id })
            } else {
                Err("RuntimeHandle required to convert JSValue::JsStream".to_owned())
            },
            Err(text) => Err(text),
        },
        JSValue::PyStream { .. } => Err(
            "PyStream placeholders cannot be materialized on the Python side".to_owned(),
        ),
        _ => vstd::pervasive::unreached(),
    }
}

/// A value that holds no others does not depend on how the stack is found later.
proof fn lemma_scalar_expecting(
    value: JsView,
    with_handle: bool,
    state: LimitState,
    rest: Seq<Option<usize>>,
)
    ensures
        ({
            let (result, after) = scalar_python(value, with_handle, state);
            scalar_python(value, with_handle, state.expecting(rest)) == (
                result,
                after.expecting(rest),
            )
        }),
        scalar_python(value, with_handle, state).1.ahead == state.ahead,
        scalar_python(value, with_handle, state).1.stack == state.stack,
{
}

/// Counting does not depend on how the stack is found later.
proof fn lemma_metered_ahead(state: LimitState, first: nat, second: nat)
    ensures
        forall|rest: Seq<Option<usize>>|
            ({
                let (result, after) = metered_twice::<()>(state, first, second, Ok(()));
                #[trigger] metered_twice::<()>(state.expecting(rest), first, second, Ok(())) == (
                    result,
                    after.expecting(rest),
                )
            }),
{
}

proof fn lemma_scalar_ahead(value: JSValue, with_handle: bool, state: LimitState)
    requires
        is_scalar(value),
    ensures
        ({
            let (result, after) = to_python_inner(value.view(), with_handle, state);
            converts_inner(value.view(), with_handle, state, Seq::empty(), result, after)
        }),
{
    let (result, after) = to_python_inner(value.view(), with_handle, state);
    assert forall|rest: Seq<Option<usize>>| #[trigger]
        to_python_inner(
            value.view(),
            with_handle,
            state.expecting(Seq::<Option<usize>>::empty() + rest),
        ) == (result, after.expecting(rest)) by {
        assert(Seq::<Option<usize>>::empty() + rest =~= rest);
        lemma_scalar_expecting(value.view(), with_handle, state, rest);
    }
}

fn convert_inner<F: Fn() -> Option<usize>>(
    value: &JSValue,
    with_handle: bool,
    tracker: &mut LimitTracker,
    measure: &F,
) -> (r: (Result<PyValue, String>, Ghost<Seq<Option<usize>>>))
    requires
        call_requires(*measure, ()),
    ensures
        given_by(*measure, r.1@),
        converts_inner(
            value.view(),
            with_handle,
            old(tracker)@,
            r.1@,
            py_result(r.0),
            final(tracker)@,
        ),
    decreases *value, 0int,
{
    let ghost before = tracker@;
    let ghost none = Seq::<Option<usize>>::empty();
    proof {
        lemma_children_smaller(*value);
    }
    match value {
        JSValue::Array(items) => {
            assert(views(items@).len() == items@.len());
            proof {
                lemma_metered_ahead(
                    before,
                    16,
                    saturating_product(items@.len(), word_bytes()),
                );
            }
            match charge_twice(tracker, 16, slot_bytes(items.len(), false)) {
                Ok(()) => {},
                Err(text) => {
                    assert forall|rest: Seq<Option<usize>>| #[trigger]
                        to_python_inner(value.view(), with_handle, before.expecting(none + rest))
                            == (Err::<PyView, _>(text@), tracker@.expecting(rest)) by {
                        assert(none + rest =~= rest);
                    }
                    return (Err(text), Ghost(none));
                },
            }
            let ghost counted = tracker@;
            let (made, seen): (Result<Vec<PyValue>, String>, Ghost<Seq<Option<usize>>>) =
                convert_items(items, with_handle, tracker, measure);
            let result: Result<PyValue, String> = python_list(made);
            assert forall|rest: Seq<Option<usize>>| #[trigger]
                to_python_inner(value.view(), with_handle, before.expecting(seen@ + rest)) == (
                    py_result(result),
                    tracker@.expecting(rest),
                ) by {
                assert(items_to_python(
                    views(items@),
                    with_handle,
                    counted.expecting(seen@ + rest),
                ) == (items_result(made), tracker@.expecting(rest)));
            }
            (result, seen)
        },
        JSValue::JsSet(items) => {
            assert(views(items@).len() == items@.len());
            proof {
                lemma_metered_ahead(
                    before,
                    24,
                    saturating_product(items@.len(), word_bytes()),
                );
            }
            match charge_twice(tracker, 24, slot_bytes(items.len(), false)) {
                Ok(()) => {},
                Err(text) => {
                    assert forall|rest: Seq<Option<usize>>| #[trigger]
                        to_python_inner(value.view(), with_handle, before.expecting(none + rest))
                            == (Err::<PyView, _>(text@), tracker@.expecting(rest)) by {
                        assert(none + rest =~= rest);
                    }
                    return (Err(text), Ghost(none));
                },
            }
            let ghost counted = tracker@;
            let (made, seen): (Result<Vec<PyValue>, String>, Ghost<Seq<Option<usize>>>) =
                convert_items(items, with_handle, tracker, measure);
            let result: Result<PyValue, String> = python_set(made);
            assert forall|rest: Seq<Option<usize>>| #[trigger]
                to_python_inner(value.view(), with_handle, before.expecting(seen@ + rest)) == (
                    py_result(result),
                    tracker@.expecting(rest),
                ) by {
                assert(items_to_python(
                    views(items@),
                    with_handle,
                    counted.expecting(seen@ + rest),
                ) == (items_result(made), tracker@.expecting(rest)));
            }
            (result, seen)
        },
        JSValue::Object(map) => {
            proof {
                lemma_metered_ahead(
                    before,
                    24,
                    saturating_product(map@.len(), word_bytes() * 2),
                );
            }
            match charge_twice(tracker, 24, slot_bytes(map.len(), true)) {
                Ok(()) => {},
                Err(text) => {
                    assert forall|rest: Seq<Option<usize>>| #[trigger]
                        to_python_inner(value.view(), with_handle, before.expecting(none + rest))
                            == (Err::<PyView, _>(text@), tracker@.expecting(rest)) by {
                        assert(none + rest =~= rest);
                    }
                    return (Err(text), Ghost(none));
                },
            }
            let ghost counted = tracker@;
            match decide_by_tag(map) {
                TagDecision::Value(result) => {
                    assert forall|rest: Seq<Option<usize>>| #[trigger]
                        to_python_inner(value.view(), with_handle, before.expecting(none + rest))
                            == (py_result(result), tracker@.expecting(rest)) by {
                        assert(none + rest =~= rest);
                    }
                    (result, Ghost(none))
                },
                TagDecision::SetAt(at) => {
                    if let JSValue::Array(items) = map.value_at(at) {
                        proof {
                            lemma_children_smaller(map.value_seq()[at as int]);
                        }
                        let (made, seen): (
                            Result<Vec<PyValue>, String>,
                            Ghost<Seq<Option<usize>>>,
                        ) = convert_items(items, with_handle, tracker, measure);
                        let result: Result<PyValue, String> = python_set(made);
                        assert forall|rest: Seq<Option<usize>>| #[trigger]
                            to_python_inner(
                                value.view(),
                                with_handle,
                                before.expecting(seen@ + rest),
                            ) == (py_result(result), tracker@.expecting(rest)) by {
                            assert(items_to_python(
                                views(items@),
                                with_handle,
                                counted.expecting(seen@ + rest),
                            ) == (items_result(made), tracker@.expecting(rest)));
                        }
                        (result, seen)
                    } else {
                        vstd::pervasive::unreached()
                    }
                },
                TagDecision::Plain => {
                    let (made, seen): (
                        Result<Vec<(String, PyValue)>, String>,
                        Ghost<Seq<Option<usize>>>,
                    ) = convert_entries(map, with_handle, tracker, measure);
                    let result: Result<PyValue, String> = python_dict(made);
                    assert forall|rest: Seq<Option<usize>>| #[trigger]
                        to_python_inner(value.view(), with_handle, before.expecting(seen@ + rest))
                            == (py_result(result), tracker@.expecting(rest)) by {
                        assert(entries_to_python(
                            map@,
                            with_handle,
                            counted.expecting(seen@ + rest),
                        ) == (entries_result(made), tracker@.expecting(rest)));
                    }
                    (result, seen)
                },
            }
        },
        _ => {
            proof {
                lemma_scalar_ahead(*value, with_handle, before);
            }
            (scalar_to_python(value, with_handle, tracker), Ghost(none))
        },
    }
}

/// What an object's type tag makes of it on the Python side.
enum TagDecision {
    Plain,
    Value(Result<PyValue, String>),
    SetAt(usize),
}

fn decide_by_tag(map: &ObjectMap) -> (decision: TagDecision)
    ensures
        match decision {
            TagDecision::Plain => tagged_meaning(map@) == TagMeaning::Plain,
            TagDecision::Value(result) => tagged_meaning(map@) == TagMeaning::Value(
                py_result(result),
            ),
            TagDecision::SetAt(at) => tagged_meaning(map@) == TagMeaning::SetAt(at as int) && at
                < map@.len() && map@[at as int].1 is Array,
        },
{
    if let Some(JSValue::String(tag)) = map.get("__pydeno_type") {
        if str_eq(tag, "Undefined") {
            return TagDecision::Value(Ok(PyValue::Undefined));
        }
        if str_eq(tag, "Date") {
            return match map.get("epoch_ms") {
                Some(JSValue::Int(i)) => TagDecision::Value(Ok(PyValue::DateTime { epoch_ms: *i })),
                Some(JSValue::Float(d)) => if d.is_finite() {
                    TagDecision::Value(Ok(PyValue::DateTime { epoch_ms: d.to_i64() }))
                } else {
                    TagDecision::Value(Err("Invalid epoch_ms payload for Date".to_owned()))
                },
                Some(_) => TagDecision::Value(Err("Invalid epoch_ms payload for Date".to_owned())),
                None => TagDecision::Plain,
            };
        }
        if str_eq(tag, "Set") {
            return match map.index_of("values") {
                Some(at) => match map.value_at(at) {
                    JSValue::Array(_) => TagDecision::SetAt(at),
                    _ => TagDecision::Plain,
                },
                None => TagDecision::Plain,
            };
        }
        if str_eq(tag, "BigInt") {
            return match map.get("value") {
                Some(JSValue::String(text)) => match JsBigInt::parse(text) {
                    Some(parsed) => TagDecision::Value(Ok(PyValue::BigInt(parsed))),
                    None => TagDecision::Value(
                        Err("Invalid BigInt payload from JavaScript".to_owned()),
                    ),
                },
                _ => TagDecision::Plain,
            };
        }
    }
    TagDecision::Plain
}

fn convert_entries<F: Fn() -> Option<usize>>(
    map: &ObjectMap,
    with_handle: bool,
    tracker: &mut LimitTracker,
    measure: &F,
) -> (r: (Result<Vec<(String, PyValue)>, String>, Ghost<Seq<Option<usize>>>))
    requires
        call_requires(*measure, ()),
    ensures
        given_by(*measure, r.1@),
        converts_entries(
            map@,
            with_handle,
            old(tracker)@,
            r.1@,
            entries_result(r.0),
            final(tracker)@,
        ),
    decreases map.value_seq(), 2int,
{
    let ghost before = tracker@;
    let mut made: Vec<(String, PyValue)> = Vec::new();
    let mut i: usize = 0;
    let n: usize = map.len();
    let ghost mut seen = Seq::<Option<usize>>::empty();
    proof {
        assert(dict_views(made@) =~= Seq::empty());
        assert forall|rest: Seq<Option<usize>>| #[trigger]
            entries_to_python(map@.take(0), with_handle, before.expecting(seen + rest)) == (
                Ok::<_, Seq<char>>(dict_views(made@)),
                tracker@.expecting(rest),
            ) by {
            assert(seen + rest =~= rest);
        }
    }
    while i < n
        invariant
            i <= n,
            n == map@.len(),
            n == map.value_seq().len(),
            call_requires(*measure, ()),
            given_by(*measure, seen),
            before == old(tracker)@,
            converts_entries(
                map@.take(i as int),
                with_handle,
                before,
                seen,
                Ok(dict_views(made@)),
                tracker@,
            ),
        decreases n - i,
    {
        let ghost mid = tracker@;
        let ghost done = dict_views(made@);
        let ghost upto = map@.take(i + 1);
        let key: &String = map.key_at(i);
        proof {
            assert(upto.drop_last() =~= map@.take(i as int));
            assert(upto.last() == map@[i as int]);
            assert(decreases_to!(map.value_seq() => map.value_seq()[i as int]));
            lemma_metered_ahead(mid, byte_len(key@), 8);
        }
        match charge_twice(tracker, str_bytes(key), 8) {
            Ok(()) => {},
            Err(text) => {
                assert forall|rest: Seq<Option<usize>>| #[trigger]
                    entries_to_python(map@, with_handle, before.expecting(seen + rest)) == (
                        Err::<Seq<(Seq<char>, PyView)>, _>(text@),
                        tracker@.expecting(rest),
                    ) by {
                    let state = before.expecting(seen + rest);
                    assert(entries_to_python(map@.take(i as int), with_handle, state) == (
                        Ok::<_, Seq<char>>(done),
                        mid.expecting(rest),
                    ));
                    lemma_entries_to_python_prefix(map@, i + 1, with_handle, state);
                }
                return (Err(text), Ghost(seen));
            },
        }
        let ghost counted = tracker@;
        let child: &JSValue = map.value_at(i);
        let (converted, more): (Result<PyValue, String>, Ghost<Seq<Option<usize>>>) =
            convert_value(child, with_handle, tracker, measure);
        let ghost all = seen + more@;
        proof {
            assert forall|rest: Seq<Option<usize>>| #[trigger]
                entries_to_python(upto, with_handle, before.expecting(all + rest)) == (
                    match py_result(converted) {
                        Ok(last) => Ok::<_, Seq<char>>(done.push((key@, last))),
                        Err(text) => Err(text),
                    },
                    tracker@.expecting(rest),
                ) by {
                assert(all + rest =~= seen + (more@ + rest));
                assert(entries_to_python(
                    map@.take(i as int),
                    with_handle,
                    before.expecting(seen + (more@ + rest)),
                ) == (Ok::<_, Seq<char>>(done), mid.expecting(more@ + rest)));
                assert(to_python(
                    child.view(),
                    with_handle,
                    counted.expecting(more@ + rest),
                ) == (py_result(converted), tracker@.expecting(rest)));
            }
        }
        match converted {
            Ok(converted) => {
                let ghost earlier = made@;
                let name: String = key.clone();
                made.push((name, converted));
                assert(dict_views(made@) =~= dict_views(earlier).push((name@, converted.view())));
            },
            Err(text) => {
                assert forall|rest: Seq<Option<usize>>| #[trigger]
                    entries_to_python(map@, with_handle, before.expecting(all + rest)) == (
                        Err::<Seq<(Seq<char>, PyView)>, _>(text@),
                        tracker@.expecting(rest),
                    ) by {
                    let state = before.expecting(all + rest);
                    assert(entries_to_python(upto, with_handle, state).0 is Err);
                    lemma_entries_to_python_prefix(map@, i + 1, with_handle, state);
                }
                return (Err(text), Ghost(all));
            },
        }
        proof {
            seen = all;
        }
        i = i + 1;
    }
    assert(map@.take(i as int) =~= map@);
    (Ok(made), Ghost(seen))
}

/// Made dictionary entries with the failure by its text.
pub open spec fn entries_result(result: Result<Vec<(String, PyValue)>, String>) -> Result<
    Seq<(Seq<char>, PyView)>,
    Seq<char>,
> {
    match result {
        Ok(made) => Ok(dict_views(made@)),
        Err(text) => Err(text@),
    }
}

/// Made items with the failure by its text.
pub open spec fn items_result(result: Result<Vec<PyValue>, String>) -> Result<
    Seq<PyView>,
    Seq<char>,
> {
    match result {
        Ok(made) => Ok(py_views(made@)),
        Err(text) => Err(text@),
    }
}

fn convert_items<F: Fn() -> Option<usize>>(
    items: &Vec<JSValue>,
    with_handle: bool,
    tracker: &mut LimitTracker,
    measure: &F,
) -> (r: (Result<Vec<PyValue>, String>, Ghost<Seq<Option<usize>>>))
    requires
        call_requires(*measure, ()),
    ensures
        given_by(*measure, r.1@),
        converts_items(
            views(items@),
            with_handle,
            old(tracker)@,
            r.1@,
            items_result(r.0),
            final(tracker)@,
        ),
    decreases items@, 2int,
{
    let ghost before = tracker@;
    let mut made: Vec<PyValue> = Vec::new();
    let mut i: usize = 0;
    let ghost mut seen = Seq::<Option<usize>>::empty();
    proof {
        assert(py_views(made@) =~= Seq::empty());
        assert forall|rest: Seq<Option<usize>>| #[trigger]
            items_to_python(views(items@).take(0), with_handle, before.expecting(seen + rest)) == (
                Ok::<_, Seq<char>>(py_views(made@)),
                tracker@.expecting(rest),
            ) by {
            assert(seen + rest =~= rest);
        }
    }
    while i < items.len()
        invariant
            i <= items@.len(),
            call_requires(*measure, ()),
            given_by(*measure, seen),
            before == old(tracker)@,
            converts_items(
                views(items@).take(i as int),
                with_handle,
                before,
                seen,
                Ok(py_views(made@)),
                tracker@,
            ),
        decreases items@.len() - i,
    {
        let ghost mid = tracker@;
        let ghost done = py_views(made@);
        let ghost upto = views(items@).take(i + 1);
        proof {
            assert(upto.drop_last() =~= views(items@).take(i as int));
            assert(upto.last() == items@[i as int].view());
            assert(decreases_to!(items@ => items@[i as int]));
        }
        let (converted, more): (Result<PyValue, String>, Ghost<Seq<Option<usize>>>) =
            convert_value(&items[i], with_handle, tracker, measure);
        let ghost all = seen + more@;
        proof {
            assert forall|rest: Seq<Option<usize>>| #[trigger]
                items_to_python(upto, with_handle, before.expecting(all + rest)) == (
                    match py_result(converted) {
                        Ok(last) => Ok::<_, Seq<char>>(done.push(last)),
                        Err(text) => Err(text),
                    },
                    tracker@.expecting(rest),
                ) by {
                assert(all + rest =~= seen + (more@ + rest));
                assert(items_to_python(
                    views(items@).take(i as int),
                    with_handle,
                    before.expecting(seen + (more@ + rest)),
                ) == (Ok::<_, Seq<char>>(done), mid.expecting(more@ + rest)));
                assert(to_python(
                    items@[i as int].view(),
                    with_handle,
                    mid.expecting(more@ + rest),
                ) == (py_result(converted), tracker@.expecting(rest)));
            }
        }
        match converted {
            Ok(converted) => {
                let ghost earlier = made@;
                made.push(converted);
                assert(py_views(made@) =~= py_views(earlier).push(converted.view()));
            },
            Err(text) => {
                assert forall|rest: Seq<Option<usize>>| #[trigger]
                    items_to_python(views(items@), with_handle, before.expecting(all + rest)) == (
                        Err::<Seq<PyView>, _>(text@),
                        tracker@.expecting(rest),
                    ) by {
                    let state = before.expecting(all + rest);
                    assert(items_to_python(upto, with_handle, state).0 is Err);
                    lemma_items_to_python_prefix(views(items@), i + 1, with_handle, state);
                }
                return (Err(text), Ghost(all));
            },
        }
        proof {
            seen = all;
        }
        i = i + 1;
    }
    assert(views(items@).take(i as int) =~= views(items@));
    (Ok(made), Ghost(seen))
}

/// Collects converted items into a Python list.
fn python_list(made: Result<Vec<PyValue>, String>) -> (result: Result<PyValue, String>)
    ensures
        py_result(result) == match items_result(made) {
            Ok(items) => Ok::<_, Seq<char>>(PyView::List(items)),
            Err(text) => Err(text),
        },
{
    match made {
        Ok(made) => {
            let list = PyValue::List(made);
            proof {
                lemma_py_view(list);
            }
            Ok(list)
        },
        Err(text) => Err(text),
    }
}

/// Collects converted entries into a Python dictionary.
fn python_dict(made: Result<Vec<(String, PyValue)>, String>) -> (result: Result<PyValue, String>)
    ensures
        py_result(result) == match entries_result(made) {
            Ok(entries) => Ok::<_, Seq<char>>(PyView::Dict(entries)),
            Err(text) => Err(text),
        },
{
    match made {
        Ok(made) => {
            let dict = PyValue::Dict(made);
            proof {
                lemma_py_view(dict);
            }
            Ok(dict)
        },
        Err(text) => Err(text),
    }
}

/// Collects converted items into a Python set.
fn python_set(made: Result<Vec<PyValue>, String>) -> (result: Result<PyValue, String>)
    ensures
        py_result(result) == match items_result(made) {
            Ok(items) => Ok::<_, Seq<char>>(PyView::PySet(items)),
            Err(text) => Err(text),
        },
{
    match made {
        Ok(made) => {
            let set = PyValue::PySet(made);
            proof {
                lemma_py_view(set);
            }
            Ok(set)
        },
        Err(text) => Err(text),
    }
}

/// Converts values against one tracker, in order, up to the first failure; see
/// [`js_value_to_python_tracked`].
pub(crate) fn js_items_to_python<F: Fn() -> Option<usize>>(
    items: &Vec<JSValue>,
    with_handle: bool,
    tracker: &mut LimitTracker,
    measure: &F,
) -> (result: Result<Vec<PyValue>, String>)
    requires
        call_requires(*measure, ()),
    ensures
        exists|seen: Seq<Option<usize>>|
            {
                &&& given_by(*measure, seen)
                &&& #[trigger] converts_items(
                    views(items@),
                    with_handle,
                    old(tracker)@,
                    seen,
                    items_result(result),
                    final(tracker)@,
                )
            },
{
    convert_items(items, with_handle, tracker, measure).0
}

/// Converts values against a tracker that was told how much stack is in use; see
/// [`js_value_to_python_told`].
pub(crate) fn js_items_to_python_told(
    items: &Vec<JSValue>,
    with_handle: bool,
    tracker: &mut LimitTracker,
) -> (result: Result<Vec<PyValue>, String>)
    ensures
        (items_result(result), final(tracker)@) == items_to_python(
            views(items@),
            with_handle,
            old(tracker)@,
        ),
{
    let used: Option<usize> = tracker.stack_used();
    let told = || -> (found: Option<usize>)
        ensures
            found == used,
        { used };
    let result: Result<Vec<PyValue>, String> = js_items_to_python(
        items,
        with_handle,
        tracker,
        &told,
    );
    proof {
        let before = old(tracker)@;
        let seen = choose|seen: Seq<Option<usize>>|
            {
                &&& given_by(told, seen)
                &&& #[trigger] converts_items(
                    views(items@),
                    with_handle,
                    before,
                    seen,
                    items_result(result),
                    tracker@,
                )
            };
        let none = Seq::<Option<usize>>::empty();
        assert(seen + none =~= seen);
        assert(items_to_python(views(items@), with_handle, before.expecting(seen + none)) == (
            items_result(result),
            tracker@.expecting(none),
        ));
        old(tracker).lemma_nothing_ahead();
        tracker.lemma_nothing_ahead();
        assert(before.expecting(Seq::empty()) == before);
        assert(tracker@.expecting(Seq::empty()) == tracker@);
        lemma_steady_items(views(items@), with_handle, before.expecting(seen));
    }
    result
}

} // verus!
