//! What results are taken for: success as success with what it holds, a failure as a
//! failure with what it says.

use crate::bigint::JsBigInt;
use crate::commands::RuntimeCommand;
use crate::config::{optional_text, span_result, span_view, text_result};
use crate::conversion::{items_result, outcome_view, py_result, PyValue, PyView};
use crate::core_state::{call_view, span_of, value_view, FunctionCallResult};
use crate::double::Double;
use crate::error::{err_view, text_view, unit_view, ErrorView, JsExceptionDetails, RuntimeError};
use crate::handle::requested;
use crate::js_value::JSValue;
use crate::limits::refusal_view;
use crate::loader::{text_outcome, url_result, ModuleError};
use crate::proxies::id_result;
use crate::py_import::{PyReading, PyReadingView, PyStep, PyStepView};
use crate::startup::{script_view, script_views, StartupScript};
use crate::stream::{chunk_result, option_view, StreamChunk};
use crate::time::Duration;
use crate::v8_export::{plan_result, plans_result, PlanView, V8Plan};
use crate::v8_import::{V8Event, V8EventView, V8Reading, V8ReadingView, V8Step, V8StepView};
use crate::wire::{value_result, wire_result, WireError, WireValue};
use vstd::prelude::*;

verus! {

/// A result that succeeds is taken for the value it holds.
pub proof fn law_successes_hold_their_value(
    value: JSValue,
    call: FunctionCallResult,
    made: PyValue,
    plan: V8Plan,
    wire: WireValue,
    chunk: StreamChunk,
    text: String,
    id: u32,
    span: Duration,
)
    ensures
        value_view(Ok(value)) == Ok::<_, ErrorView>(value.view()),
        call_view(Ok(call)) == Ok::<_, ErrorView>(call.view()),
        unit_view(Ok(())) == Ok::<(), ErrorView>(()),
        err_view(Ok(id)) == Ok::<u32, ErrorView>(id),
        py_result(Ok(made)) == Ok::<_, Seq<char>>(made.view()),
        plan_result(Ok(plan)) == Ok::<_, ErrorView>(plan.view()),
        wire_result(Ok(wire)) is Ok && wire_result(Ok(wire))->Ok_0 == wire.view(),
        value_result(Ok(value)) is Ok && value_result(Ok(value))->Ok_0 == value.view(),
        chunk_result(Ok(chunk)) == Ok::<_, ErrorView>(chunk@),
        text_outcome(Ok(text)) == Ok::<_, Seq<char>>(text@),
        url_result(Ok(text)) is Ok && url_result(Ok(text))->Ok_0 == text@,
        id_result(Ok(id)) == Ok::<_, Seq<char>>(id),
        text_result(Ok(id)) == Ok::<u32, Seq<char>>(id),
        outcome_view(Ok(())) == Ok::<(), Seq<char>>(()),
        span_result(Ok(span)) == Ok::<_, Seq<char>>(span@),
        refusal_view(None) == Ok::<(), ErrorView>(()),
{
}

/// A result that fails is taken for what its failure says.
pub proof fn law_failures_hold_what_they_say(
    err: RuntimeError,
    text: String,
    wire: WireError,
    module: ModuleError,
)
    ensures
        value_view(Err(err)) == Err::<crate::js_value::JsView, _>(err@),
        call_view(Err(err)) is Err && call_view(Err(err))->Err_0 == err@,
        unit_view(Err(err)) == Err::<(), _>(err@),
        err_view::<u32>(Err(err)) == Err::<u32, _>(err@),
        py_result(Err(text)) is Err && py_result(Err(text))->Err_0 == text@,
        items_result(Err(text)) is Err && items_result(Err(text))->Err_0 == text@,
        plan_result(Err(err)) is Err && plan_result(Err(err))->Err_0 == err@,
        plans_result(Err(err)) is Err && plans_result(Err(err))->Err_0 == err@,
        wire_result(Err(wire)) is Err && wire_result(Err(wire))->Err_0 == wire@,
        value_result(Err(wire)) is Err && value_result(Err(wire))->Err_0 == wire@,
        chunk_result(Err(err)) is Err && chunk_result(Err(err))->Err_0 == err@,
        text_outcome(Err(text)) is Err && text_outcome(Err(text))->Err_0 == text@,
        url_result(Err(module)) is Err && url_result(Err(module))->Err_0 == module@,
        id_result(Err(text)) is Err && id_result(Err(text))->Err_0 == text@,
        text_result::<u32>(Err(text)) is Err && text_result::<u32>(Err(text))->Err_0 == text@,
        outcome_view(Err(text)) is Err && outcome_view(Err(text))->Err_0 == text@,
        span_result(Err(text)) is Err && span_result(Err(text))->Err_0 == text@,
        refusal_view(Some(text@)) == Err::<(), _>(ErrorView::Internal(text@)),
{
}

/// What is there is taken for what it holds, and what is not there for nothing.
pub proof fn law_options_hold_their_value(
    text: String,
    value: JSValue,
    span: Duration,
    script: StartupScript,
    scripts: Seq<StartupScript>,
    made: Vec<PyValue>,
    plans: Vec<V8Plan>,
    i: int,
)
    ensures
        text_view(Some(text)) == Some(text@) && text_view(None) is None,
        optional_text(Some(text)) == Some(text@) && optional_text(None) is None,
        option_view(Some(value)) == Some(value.view()) && option_view(None) is None,
        span_of(Some(span)) == Some(span@) && span_of(None) is None,
        span_view(Some(span)) == Some(span@) && span_view(None) is None,
        script_view(Some(script)) == Some(script@) && script_view(None) is None,
        script_views(scripts).len() == scripts.len(),
        0 <= i < scripts.len() ==> script_views(scripts)[i] == scripts[i]@,
        items_result(Ok(made)) is Ok && items_result(Ok(made))->Ok_0.len() == made@.len(),
        0 <= i < made@.len() ==> items_result(Ok(made))->Ok_0[i] == made@[i].view(),
        plans_result(Ok(plans)) is Ok && plans_result(Ok(plans))->Ok_0.len() == plans@.len(),
        0 <= i < plans@.len() ==> plans_result(Ok(plans))->Ok_0[i] == plans@[i].view(),
{
}

/// A command is handed out, and is the one that was asked for, exactly if nothing stands
/// against it; otherwise the caller is told what does.
pub proof fn law_commands_are_handed_out(
    refusal: Option<ErrorView>,
    result: Result<RuntimeCommand, RuntimeError>,
    asked: spec_fn(RuntimeCommand) -> bool,
)
    requires
        requested(refusal, result, asked),
    ensures
        refusal is None <==> result is Ok,
        result is Ok ==> asked(result->Ok_0),
        result is Err ==> refusal == Some(result->Err_0@),
{
}

/// An error is taken for its kind and what it says, and an exception for everything that
/// is known of it.
pub proof fn law_errors_are_taken_for_what_they_say(
    details: JsExceptionDetails,
    text: String,
    i: int,
)
    ensures
        (RuntimeError::JavaScript(details))@ == ErrorView::JavaScript(details@),
        (RuntimeError::Timeout { context: text })@ == ErrorView::Timeout(text@),
        (RuntimeError::Internal { context: text })@ == ErrorView::Internal(text@),
        (RuntimeError::Terminated { reason: Some(text) })@ == ErrorView::Terminated(Some(text@)),
        (RuntimeError::Terminated { reason: None })@ == ErrorView::Terminated(None),
        (RuntimeError::ForceKilled { context: text })@ == ErrorView::ForceKilled(text@),
        details@.summary == details.summary@,
        details.name is Some ==> details@.name == Some(details.name->0@),
        details.message is Some ==> details@.message == Some(details.message->0@),
        details.stack is Some ==> details@.stack == Some(details.stack->0@),
        details.name is None ==> details@.name is None,
        details.message is None ==> details@.message is None,
        details.stack is None ==> details@.stack is None,
        details@.frames.len() == details.frames@.len(),
        0 <= i < details.frames@.len() ==> details@.frames[i].line_number
            == details.frames@[i].line_number && details@.frames[i].column_number
            == details.frames@[i].column_number && details@.frames[i].function_name == text_view(
            details.frames@[i].function_name,
        ) && details@.frames[i].file_name == text_view(details.frames@[i].file_name),
{
}

/// A value of Python is taken for what it holds.
pub proof fn law_python_values_are_taken_for_what_they_hold(
    flag: bool,
    whole: i64,
    d: Double,
    big: JsBigInt,
    text: String,
    bytes: Vec<u8>,
    items: Vec<PyValue>,
    id: u32,
    i: int,
)
    ensures
        PyValue::Undefined.view() == PyView::Undefined,
        PyValue::NoneValue.view() == PyView::NoneValue,
        PyValue::Bool(flag).view() == PyView::Bool(flag),
        PyValue::Int(whole).view() == PyView::Int(whole),
        PyValue::BigInt(big).view() == PyView::BigInt(big@),
        PyValue::Float(d).view() == PyView::Float(d.bits),
        PyValue::Str(text).view() == PyView::Str(text@),
        PyValue::Bytes(bytes).view() == PyView::Bytes(bytes@),
        (PyValue::DateTime { epoch_ms: whole }).view() == PyView::DateTime(whole),
        (PyValue::Function { id }).view() == PyView::Function(id),
        (PyValue::Stream { id }).view() == PyView::Stream(id),
        PyValue::List(items).view() is List,
        PyValue::List(items).view()->List_0.len() == items@.len(),
        0 <= i < items@.len() ==> PyValue::List(items).view()->List_0[i] == items@[i].view(),
        PyValue::PySet(items).view() is PySet,
        PyValue::PySet(items).view()->PySet_0.len() == items@.len(),
        0 <= i < items@.len() ==> PyValue::PySet(items).view()->PySet_0[i] == items@[i].view(),
{
}

/// What is to be made in the engine is taken for what it holds.
pub proof fn law_plans_are_taken_for_what_they_hold(
    flag: bool,
    d: Double,
    text: String,
    bytes: Vec<u8>,
    items: Vec<V8Plan>,
    entries: Vec<(String, V8Plan)>,
    slot: u64,
    id: u32,
    i: int,
)
    ensures
        V8Plan::Undefined.view() == PlanView::Undefined,
        V8Plan::Null.view() == PlanView::Null,
        V8Plan::Boolean(flag).view() == PlanView::Boolean(flag),
        V8Plan::Number(d).view() == PlanView::Number(d.bits),
        V8Plan::Date(d).view() == PlanView::Date(d.bits),
        V8Plan::Text(text).view() == PlanView::Text(text@),
        V8Plan::Bytes(bytes).view() == PlanView::Bytes(bytes@),
        (V8Plan::Function { slot }).view() == PlanView::Function(slot),
        (V8Plan::PyStream { id }).view() == PlanView::PyStream(id),
        V8Plan::Array(items).view() is Array,
        V8Plan::Array(items).view()->Array_0.len() == items@.len(),
        0 <= i < items@.len() ==> V8Plan::Array(items).view()->Array_0[i] == items@[i].view(),
        V8Plan::JsSet(items).view() is JsSet,
        V8Plan::JsSet(items).view()->JsSet_0.len() == items@.len(),
        0 <= i < items@.len() ==> V8Plan::JsSet(items).view()->JsSet_0[i] == items@[i].view(),
        V8Plan::Object(entries).view() is Object,
        V8Plan::Object(entries).view()->Object_0.len() == entries@.len(),
        0 <= i < entries@.len() ==> V8Plan::Object(entries).view()->Object_0[i] == (
            entries@[i].0@,
            entries@[i].1.view(),
        ),
{
}

/// What was read of an engine value, or of an object of Python, is taken for what it
/// holds; and so is what an importer asks for.
pub proof fn law_readings_are_taken_for_what_they_hold(
    flag: bool,
    whole: i64,
    d: Double,
    text: String,
    bytes: Vec<u8>,
    value: JSValue,
    n: usize,
)
    ensures
        V8Reading::Boolean(flag)@ == V8ReadingView::Boolean(flag),
        V8Reading::Number(d)@ == V8ReadingView::Number(d.bits),
        V8Reading::Date(d)@ == V8ReadingView::Date(d.bits),
        V8Reading::Text(text)@ == V8ReadingView::Text(text@),
        V8Reading::Undefined@ == V8ReadingView::Undefined,
        V8Reading::Null@ == V8ReadingView::Null,
        V8Event::Bytes(bytes)@ == V8EventView::Bytes(bytes@),
        V8Step::Done(value).view() == V8StepView::Done(value.view()),
        (V8Step::ReadElement { index: n }).view() == V8StepView::ReadElement(n as int),
        (V8Step::ReadProperty { index: n }).view() == V8StepView::ReadProperty(n as int),
        (V8Step::ReadBytes { length: n }).view() == V8StepView::ReadBytes(n as int),
        PyReading::Bool(flag)@ == PyReadingView::Bool(flag),
        PyReading::Int(whole)@ == PyReadingView::Int(whole),
        PyReading::Float(d)@ == PyReadingView::Float(d.bits),
        PyReading::Str(text)@ == PyReadingView::Str(text@),
        PyReading::Bytes(bytes)@ == PyReadingView::Bytes(bytes@),
        PyReading::NoneValue@ == PyReadingView::NoneValue,
        PyReading::Undefined@ == PyReadingView::Undefined,
        PyStep::Done(value).view() == PyStepView::Done(value.view()),
        PyStep::Failed(text).view() == PyStepView::Failed(text@),
        PyStep::More.view() == PyStepView::More,
{
}

} // verus!
