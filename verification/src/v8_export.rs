//! What engine value a `JSValue` becomes, and calls into stored JS functions.

use crate::bigint::words_value;
use crate::double::{double_from_i64, signed_bits, Double};
use crate::error::{ErrorView, RuntimeError, RuntimeResult};
use crate::functions::{FunctionTable, FunctionsView, StoredFunction};
use crate::js_value::{lemma_children_smaller, lemma_view, lemma_views_push, views, JSValue, JsView};
use crate::text::{decimal, decimal_string, join3};
use vstd::prelude::*;

verus! {

broadcast use {lemma_view, lemma_views_push};

/// An engine value to be made.
#[derive(Debug)]
pub enum V8Plan {
    Undefined,
    Null,
    Boolean(bool),
    /// A big integer by its sign and 64-bit words, lowest first.
    BigInt { negative: bool, words: Vec<u64> },
    Number(Double),
    Text(String),
    /// A `Uint8Array` over these bytes.
    Bytes(Vec<u8>),
    Array(Vec<V8Plan>),
    JsSet(Vec<V8Plan>),
    Object(Vec<(String, V8Plan)>),
    /// The moment in milliseconds.
    Date(Double),
    /// The stored function whose handle has this slot.
    Function { slot: u64 },
    /// The stream that the bridge makes for a Python stream id.
    PyStream { id: u32 },
}

#[verifier::ext_equal]
pub enum PlanView {
    Undefined,
    Null,
    Boolean(bool),
    BigInt(int),
    Number(u64),
    Text(Seq<char>),
    Bytes(Seq<u8>),
    Array(Seq<PlanView>),
    JsSet(Seq<PlanView>),
    Object(Seq<(Seq<char>, PlanView)>),
    Date(u64),
    Function(u64),
    PyStream(u32),
}

impl V8Plan {
    pub open spec fn view(self) -> PlanView
        decreases self,
    {
        match self {
            V8Plan::Undefined => PlanView::Undefined,
            V8Plan::Null => PlanView::Null,
            V8Plan::Boolean(b) => PlanView::Boolean(b),
            V8Plan::BigInt { negative, words } => PlanView::BigInt(
                if negative {
                    -(words_value(words@) as int)
                } else {
                    words_value(words@) as int
                },
            ),
            V8Plan::Number(d) => PlanView::Number(d.bits),
            V8Plan::Text(s) => PlanView::Text(s@),
            V8Plan::Bytes(bytes) => PlanView::Bytes(bytes@),
            V8Plan::Array(items) => PlanView::Array(
                Seq::new(
                    items@.len(),
                    |i: int|
                        if 0 <= i < items@.len() {
                            items@[i].view()
                        } else {
                            PlanView::Undefined
                        },
                ),
            ),
            V8Plan::JsSet(items) => PlanView::JsSet(
                Seq::new(
                    items@.len(),
                    |i: int|
                        if 0 <= i < items@.len() {
                            items@[i].view()
                        } else {
                            PlanView::Undefined
                        },
                ),
            ),
            V8Plan::Object(entries) => PlanView::Object(
                Seq::new(
                    entries@.len(),
                    |i: int|
                        (
                            entries@[i].0@,
                            if 0 <= i < entries@.len() {
                                entries@[i].1.view()
                            } else {
                                PlanView::Undefined
                            },
                        ),
                ),
            ),
            V8Plan::Date(ms) => PlanView::Date(ms.bits),
            V8Plan::Function { slot } => PlanView::Function(slot),
            V8Plan::PyStream { id } => PlanView::PyStream(id),
        }
    }
}

pub open spec fn plan_views(items: Seq<V8Plan>) -> Seq<PlanView> {
    items.map_values(|item: V8Plan| item.view())
}

pub open spec fn plan_entry_views(entries: Seq<(String, V8Plan)>) -> Seq<(Seq<char>, PlanView)> {
    entries.map_values(|entry: (String, V8Plan)| (entry.0@, entry.1.view()))
}

proof fn lemma_plan_view(plan: V8Plan)
    ensures
        plan.view() == match plan {
            V8Plan::Array(items) => PlanView::Array(plan_views(items@)),
            V8Plan::JsSet(items) => PlanView::JsSet(plan_views(items@)),
            V8Plan::Object(entries) => PlanView::Object(plan_entry_views(entries@)),
            _ => plan.view(),
        },
{
    match plan {
        V8Plan::Array(items) => {
            assert(plan.view()->Array_0 =~= plan_views(items@));
        },
        V8Plan::JsSet(items) => {
            assert(plan.view()->JsSet_0 =~= plan_views(items@));
        },
        V8Plan::Object(entries) => {
            assert(plan.view()->Object_0 =~= plan_entry_views(entries@));
        },
        _ => {},
    }
}

/// The text for a function id that is not in the table.
pub open spec fn missing_argument_text(id: u32) -> Seq<char> {
    "Function ID "@ + decimal(id as nat) + " not found in args"@
}

/// The engine value that a value becomes, or why it cannot become one.
pub open spec fn plan_of(value: JsView, functions: FunctionsView) -> Result<PlanView, ErrorView>
    decreases value,
{
    match value {
        JsView::Undefined => Ok(PlanView::Undefined),
        JsView::Null => Ok(PlanView::Null),
        JsView::Bool(b) => Ok(PlanView::Boolean(b)),
        JsView::Int(i) => Ok(PlanView::Number(signed_bits(i as int) as u64)),
        JsView::BigInt(i) => Ok(PlanView::BigInt(i)),
        JsView::Float(bits) => Ok(PlanView::Number(bits)),
        JsView::String(s) => Ok(PlanView::Text(s)),
        JsView::Bytes(bytes) => Ok(PlanView::Bytes(bytes)),
        JsView::Array(items) => match plans_of(items, functions) {
            Ok(plans) => Ok(PlanView::Array(plans)),
            Err(err) => Err(err),
        },
        JsView::JsSet(items) => match plans_of(items, functions) {
            Ok(plans) => Ok(PlanView::JsSet(plans)),
            Err(err) => Err(err),
        },
        JsView::Object(entries) => match entry_plans_of(entries, functions) {
            Ok(plans) => Ok(PlanView::Object(plans)),
            Err(err) => Err(err),
        },
        JsView::Date(ms) => Ok(PlanView::Date(signed_bits(ms as int) as u64)),
        JsView::Function(id) => if functions.stored.contains_key(id) {
            Ok(PlanView::Function(functions.stored[id].function))
        } else {
            Err(ErrorView::Internal(missing_argument_text(id)))
        },
        JsView::PyStream(id) => Ok(PlanView::PyStream(id)),
        JsView::JsStream(_) => Err(
            ErrorView::Internal("JsStream values cannot be sent back into JavaScript"@),
        ),
    }
}

/// The engine values that the items become, or the first failure.
pub open spec fn plans_of(items: Seq<JsView>, functions: FunctionsView) -> Result<
    Seq<PlanView>,
    ErrorView,
>
    decreases items,
{
    if items.len() == 0 {
        Ok(Seq::empty())
    } else {
        match plans_of(items.drop_last(), functions) {
            Ok(plans) => match plan_of(items.last(), functions) {
                Ok(last) => Ok(plans.push(last)),
                Err(err) => Err(err),
            },
            Err(err) => Err(err),
        }
    }
}

/// The properties that the entries become, or the first failure.
pub open spec fn entry_plans_of(
    entries: Seq<(Seq<char>, JsView)>,
    functions: FunctionsView,
) -> Result<Seq<(Seq<char>, PlanView)>, ErrorView>
    decreases entries,
{
    if entries.len() == 0 {
        Ok(Seq::empty())
    } else {
        match entry_plans_of(entries.drop_last(), functions) {
            Ok(plans) => match plan_of(entries.last().1, functions) {
                Ok(last) => Ok(plans.push((entries.last().0, last))),
                Err(err) => Err(err),
            },
            Err(err) => Err(err),
        }
    }
}

proof fn lemma_plans_prefix(items: Seq<JsView>, n: int, functions: FunctionsView)
    requires
        0 <= n <= items.len(),
    ensures
        plans_of(items.take(n), functions) is Err ==> plans_of(items, functions) == plans_of(
            items.take(n),
            functions,
        ),
    decreases items.len() - n,
{
    if n < items.len() {
        lemma_plans_prefix(items, n + 1, functions);
        assert(items.take(n + 1).drop_last() =~= items.take(n));
    } else {
        assert(items.take(n) =~= items);
    }
}

proof fn lemma_entry_plans_prefix(
    entries: Seq<(Seq<char>, JsView)>,
    n: int,
    functions: FunctionsView,
)
    requires
        0 <= n <= entries.len(),
    ensures
        entry_plans_of(entries.take(n), functions) is Err ==> entry_plans_of(entries, functions)
            == entry_plans_of(entries.take(n), functions),
    decreases entries.len() - n,
{
    if n < entries.len() {
        lemma_entry_plans_prefix(entries, n + 1, functions);
        assert(entries.take(n + 1).drop_last() =~= entries.take(n));
    } else {
        assert(entries.take(n) =~= entries);
    }
}

/// A plan with the error by its view.
pub open spec fn plan_result(result: RuntimeResult<V8Plan>) -> Result<PlanView, ErrorView> {
    match result {
        Ok(plan) => Ok(plan.view()),
        Err(err) => Err(err@),
    }
}

/// Plans with the error by its view.
pub open spec fn plans_result(result: RuntimeResult<Vec<V8Plan>>) -> Result<
    Seq<PlanView>,
    ErrorView,
> {
    match result {
        Ok(plans) => Ok(plan_views(plans@)),
        Err(err) => Err(err@),
    }
}

/// The engine value that a value becomes.
pub fn to_v8(value: &JSValue, functions: &FunctionTable) -> (result: RuntimeResult<V8Plan>)
    ensures
        plan_result(result) == plan_of(value.view(), functions@),
    decreases *value, 1int,
{
    proof {
        lemma_children_smaller(*value);
    }
    match value {
        JSValue::Undefined => Ok(V8Plan::Undefined),
        JSValue::Null => Ok(V8Plan::Null),
        JSValue::Bool(b) => Ok(V8Plan::Boolean(*b)),
        JSValue::Int(i) => Ok(V8Plan::Number(double_from_i64(*i))),
        JSValue::BigInt(bigint) => Ok(
            V8Plan::BigInt { negative: bigint.is_negative(), words: bigint.words() },
        ),
        JSValue::Float(d) => Ok(V8Plan::Number(*d)),
        JSValue::String(s) => Ok(V8Plan::Text(s.clone())),
        JSValue::Bytes(bytes) => {
            let copy: Vec<u8> = bytes.clone();
            assert(copy@ == bytes@);
            Ok(V8Plan::Bytes(copy))
        },
        JSValue::Array(items) => match all_to_v8(items, functions) {
            Ok(plans) => {
                let plan = V8Plan::Array(plans);
                proof {
                    lemma_plan_view(plan);
                }
                Ok(plan)
            },
            Err(err) => Err(err),
        },
        JSValue::JsSet(items) => match all_to_v8(items, functions) {
            Ok(plans) => {
                let plan = V8Plan::JsSet(plans);
                proof {
                    lemma_plan_view(plan);
                }
                Ok(plan)
            },
            Err(err) => Err(err),
        },
        JSValue::Object(map) => {
            let mut plans: Vec<(String, V8Plan)> = Vec::new();
            let mut i: usize = 0;
            let n: usize = map.len();
            assert(map@.take(0) =~= Seq::empty());
            assert(plan_entry_views(plans@) =~= Seq::empty());
            while i < n
                invariant
                    i <= n,
                    n == map@.len(),
                    n == map.value_seq().len(),
                    *value == JSValue::Object(*map),
                    forall|k: int|
                        0 <= k < map.value_seq().len() ==> decreases_to!(
                            *value => #[trigger] map.value_seq()[k]
                        ),
                    entry_plans_of(map@.take(i as int), functions@) == Ok::<_, ErrorView>(
                        plan_entry_views(plans@),
                    ),
                decreases n - i,
            {
                proof {
                    assert(map@.take(i + 1).drop_last() =~= map@.take(i as int));
                    assert(map@.take(i + 1).last() == map@[i as int]);
                    lemma_entry_plans_prefix(map@, i + 1, functions@);
                }
                match to_v8(map.value_at(i), functions) {
                    Ok(plan) => {
                        let ghost before = plans@;
                        let key: String = map.key_at(i).clone();
                        plans.push((key, plan));
                        assert(plan_entry_views(plans@) =~= plan_entry_views(before).push(
                            (key@, plan.view()),
                        ));
                    },
                    Err(err) => return Err(err),
                }
                i = i + 1;
            }
            assert(map@.take(i as int) =~= map@);
            let plan = V8Plan::Object(plans);
            proof {
                lemma_plan_view(plan);
            }
            Ok(plan)
        },
        JSValue::Date(ms) => Ok(V8Plan::Date(double_from_i64(*ms))),
        JSValue::Function { id } => match functions.get(*id) {
            Some(stored) => Ok(V8Plan::Function { slot: stored.function }),
            None => Err(
                RuntimeError::internal(
                    join3("Function ID ", &decimal_string(*id as u64), " not found in args"),
                ),
            ),
        },
        JSValue::PyStream { id } => Ok(V8Plan::PyStream { id: *id }),
        JSValue::JsStream { .. } => Err(
            RuntimeError::internal_text("JsStream values cannot be sent back into JavaScript"),
        ),
    }
}

fn all_to_v8(items: &Vec<JSValue>, functions: &FunctionTable) -> (result: RuntimeResult<
    Vec<V8Plan>,
>)
    ensures
        plans_result(result) == plans_of(views(items@), functions@),
    decreases items@, 0int,
{
    let mut plans: Vec<V8Plan> = Vec::new();
    let mut i: usize = 0;
    assert(views(items@).take(0) =~= Seq::empty());
    assert(plan_views(plans@) =~= Seq::empty());
    while i < items.len()
        invariant
            i <= items@.len(),
            plans_of(views(items@).take(i as int), functions@) == Ok::<_, ErrorView>(
                plan_views(plans@),
            ),
        decreases items@.len() - i,
    {
        proof {
            assert(views(items@).take(i + 1).drop_last() =~= views(items@).take(i as int));
            assert(views(items@).take(i + 1).last() == items@[i as int].view());
            assert(decreases_to!(items@ => items@[i as int]));
            lemma_plans_prefix(views(items@), i + 1, functions@);
        }
        match to_v8(&items[i], functions) {
            Ok(plan) => {
                let ghost before = plans@;
                plans.push(plan);
                assert(plan_views(plans@) =~= plan_views(before).push(plan.view()));
            },
            Err(err) => return Err(err),
        }
        i = i + 1;
    }
    assert(views(items@).take(i as int) =~= views(items@));
    Ok(plans)
}

/// A call of a stored function: its handle, its receiver (the global object
/// without one) and its arguments.
#[derive(Debug)]
pub struct CallPlan {
    pub stored: StoredFunction,
    pub args: Vec<V8Plan>,
}

/// The text for a function id that is not in the table.
pub open spec fn missing_function_text(id: u32) -> Seq<char> {
    "Function ID "@ + decimal(id as nat) + " not found"@
}

/// The error for a function id that is not in the table.
pub fn missing_function(id: u32) -> (err: RuntimeError)
    ensures
        err@ == ErrorView::Internal(missing_function_text(id)),
{
    RuntimeError::internal(join3("Function ID ", &decimal_string(id as u64), " not found"))
}

/// Looks up a stored function and converts the arguments for a call of it.
pub fn call_stored(functions: &FunctionTable, fn_id: u32, args: &Vec<JSValue>) -> (result:
    RuntimeResult<CallPlan>)
    ensures
        match result {
            Ok(plan) => functions@.stored.contains_key(fn_id) && plan.stored
                == functions@.stored[fn_id] && plans_of(views(args@), functions@) == Ok::<
                _,
                ErrorView,
            >(plan_views(plan.args@)),
            Err(err) => if functions@.stored.contains_key(fn_id) {
                plans_of(views(args@), functions@) == Err::<Seq<PlanView>, _>(err@)
            } else {
                err@ == ErrorView::Internal(missing_function_text(fn_id))
            },
        },
{
    match functions.get(fn_id) {
        Some(stored) => match all_to_v8(args, functions) {
            Ok(plans) => Ok(CallPlan { stored, args: plans }),
            Err(err) => Err(err),
        },
        None => Err(missing_function(fn_id)),
    }
}

} // verus!
