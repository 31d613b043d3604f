//! What callers of jobs can rely on, from what was found out about their work to what
//! they are answered.

use crate::commands::Reply;
use crate::core_state::{has_fired, CallError, CoreView};
use crate::dispatcher::{advanced, taken_in, Advance, Reported, RunnerView};
use crate::error::{ErrorView, JsExceptionDetails, RuntimeError, RuntimeResult};
use crate::jobs::{
    EvaluationReading, Job, JobBody, JobEvent, JobPoll, JobStage, PromiseReading, StartOutcome,
    TimeoutWording,
};
use crate::js_value::{lemma_view, JSValue, JsView};
use crate::stats::RuntimeCallKind;
use crate::termination::{
    lemma_position_found, TerminationStatus, TerminationView, WatchdogToken, WatchdogView,
};
use crate::text::decimal;
use vstd::prelude::*;

verus! {

broadcast use lemma_view;

/// The runtime was not asked to terminate.
pub open spec fn is_running(core: CoreView, termination: TerminationView) -> bool {
    !core.terminated && termination.status == TerminationStatus::Running
}

/// No deadline of the token has fired, if there is a token.
pub open spec fn is_quiet(watchdog: WatchdogView, token: Option<WatchdogToken>) -> bool {
    token is Some ==> forall|k: int|
        0 <= k < watchdog.armed.len() && (#[trigger] watchdog.armed[k]).id == (token->0).id
            ==> !watchdog.armed[k].fired
}

/// There is a token, its deadline is armed, and it has fired.
pub open spec fn has_gone_off(watchdog: WatchdogView, token: Option<WatchdogToken>) -> bool {
    &&& token is Some
    &&& exists|k: int|
        0 <= k < watchdog.armed.len() && (#[trigger] watchdog.armed[k]).id == (token->0).id
    &&& forall|k: int|
        0 <= k < watchdog.armed.len() && (#[trigger] watchdog.armed[k]).id == (token->0).id
            ==> watchdog.armed[k].fired
}

pub(crate) proof fn lemma_quiet(watchdog: WatchdogView, token: Option<WatchdogToken>)
    ensures
        is_quiet(watchdog, token) && token is Some ==> !has_fired(watchdog, token->0),
        has_gone_off(watchdog, token) ==> has_fired(watchdog, token->0),
{
    if let Some(t) = token {
        lemma_position_found(watchdog.armed, t.id);
    }
}

/// The caller is answered with this value.
pub open spec fn answers_value(reply: Reply, responder: u64, value: JsView) -> bool {
    &&& reply.responder == responder
    &&& reply.body is Value
    &&& reply.body->Value_0 is Ok
    &&& reply.body->Value_0->Ok_0.view() == value
}

/// The caller is answered with this error.
pub open spec fn answers_error(reply: Reply, responder: u64, err: ErrorView) -> bool {
    &&& reply.responder == responder
    &&& reply.body is Value
    &&& reply.body->Value_0 is Err
    &&& reply.body->Value_0->Err_0@ == err
}

/// The caller is answered with this result, whichever it is.
pub open spec fn answers_result(reply: Reply, responder: u64, result: RuntimeResult<JSValue>) -> bool {
    match result {
        Ok(value) => answers_value(reply, responder, value.view()),
        Err(err) => answers_error(reply, responder, err@),
    }
}

/// The promise that a script, a call or a resumed call produced is awaited: once it is
/// fulfilled, the caller is answered with exactly the value it was fulfilled with, or
/// with why that could not be converted.
pub proof fn law_fulfilled_promises_give_their_value(
    before: RunnerView,
    now: nat,
    value: RuntimeResult<JSValue>,
    after: RunnerView,
    r: Reported,
)
    requires
        before.active is Some,
        !((before.active->0).body is StreamRead),
        is_quiet(before.watchdog, (before.active->0).common.watchdog),
        taken_in(
            before,
            now,
            JobEvent::Observed(PromiseReading::Fulfilled(value)),
            after,
            r,
        ),
    ensures
        r is Answered,
        answers_result(r->Answered_0, (before.active->0).common.responder, value),
{
    lemma_quiet(before.watchdog, (before.active->0).common.watchdog);
}

/// A promise that is rejected fails its caller: never with a value, and in a runtime
/// that was not asked to terminate with the exception that it was rejected with.
pub proof fn law_rejections_are_raised(
    before: RunnerView,
    now: nat,
    details: JsExceptionDetails,
    after: RunnerView,
    r: Reported,
)
    requires
        before.active is Some,
        taken_in(
            before,
            now,
            JobEvent::Observed(PromiseReading::Rejected(details)),
            after,
            r,
        ),
    ensures
        r is Answered,
        r->Answered_0.responder == (before.active->0).common.responder,
        r->Answered_0.body is Value,
        r->Answered_0.body->Value_0 is Err,
        is_running(before.core, before.termination) && is_quiet(
            before.watchdog,
            (before.active->0).common.watchdog,
        ) ==> answers_error(
            r->Answered_0,
            (before.active->0).common.responder,
            ErrorView::JavaScript(details@),
        ),
{
    lemma_quiet(before.watchdog, (before.active->0).common.watchdog);
}

/// A script that throws fails its caller with the exception that it threw.
pub proof fn law_thrown_exceptions_are_raised(
    before: RunnerView,
    now: nat,
    details: JsExceptionDetails,
    after: RunnerView,
    r: Reported,
)
    requires
        before.active is Some,
        taken_in(before, now, JobEvent::Started(StartOutcome::Threw(details)), after, r)
            || taken_in(
            before,
            now,
            JobEvent::Started(StartOutcome::CallFailed(CallError::Js(details))),
            after,
            r,
        ),
    ensures
        r is Answered,
        r->Answered_0.responder == (before.active->0).common.responder,
        r->Answered_0.body is Value,
        r->Answered_0.body->Value_0 is Err,
        is_running(before.core, before.termination) && is_quiet(
            before.watchdog,
            (before.active->0).common.watchdog,
        ) ==> answers_error(
            r->Answered_0,
            (before.active->0).common.responder,
            ErrorView::JavaScript(details@),
        ),
{
    lemma_quiet(before.watchdog, (before.active->0).common.watchdog);
}

/// Work that cannot be started, or a module whose evaluation fails, fails its caller
/// with that error.
pub proof fn law_failures_reach_the_caller(
    before: RunnerView,
    now: nat,
    err: RuntimeError,
    after: RunnerView,
    r: Reported,
)
    requires
        before.active is Some,
        is_running(before.core, before.termination),
        is_quiet(before.watchdog, (before.active->0).common.watchdog),
        taken_in(before, now, JobEvent::Started(StartOutcome::Failed(err)), after, r) || taken_in(
            before,
            now,
            JobEvent::Started(StartOutcome::CallFailed(CallError::Runtime(err))),
            after,
            r,
        ) || taken_in(before, now, JobEvent::Evaluated(EvaluationReading::Failed(err)), after, r),
    ensures
        r is Answered,
        answers_error(r->Answered_0, (before.active->0).common.responder, err@),
{
    lemma_quiet(before.watchdog, (before.active->0).common.watchdog);
}

/// A call that the engine stopped in a runtime that was asked to terminate is answered
/// with the termination and its reason, and the runtime is terminated: it holds no
/// function and no parked call any more.
pub proof fn law_stopped_work_is_reported_as_terminated(
    before: RunnerView,
    now: nat,
    after: RunnerView,
    r: Reported,
)
    requires
        before.active is Some,
        !before.core.terminated,
        before.termination.status != TerminationStatus::Running,
        is_quiet(before.watchdog, (before.active->0).common.watchdog),
        taken_in(
            before,
            now,
            JobEvent::Started(StartOutcome::CallFailed(CallError::Terminated)),
            after,
            r,
        ),
    ensures
        r is Answered,
        answers_error(
            r->Answered_0,
            (before.active->0).common.responder,
            ErrorView::Terminated(before.termination.reason),
        ),
        after.core.terminated,
        after.termination.status == TerminationStatus::Terminated,
        after.core.functions.stored.dom() == Set::<u32>::empty(),
        after.core.pending.dom() == Set::<u64>::empty(),
{
    lemma_quiet(before.watchdog, (before.active->0).common.watchdog);
    let words = "execution terminated"@;
    assert(words.subrange(0, words.len() as int) =~= words);
    assert(crate::text::occurs_at(words, words, 0));
    assert(after.core.functions.stored.dom() =~= Set::<u32>::empty());
    assert(after.core.pending.dom() =~= Set::<u64>::empty());
}

/// The namespace of a module is its answer: exactly what was read, or why it could not
/// be.
pub proof fn law_namespaces_are_returned(
    before: RunnerView,
    now: nat,
    result: RuntimeResult<JSValue>,
    after: RunnerView,
    r: Reported,
)
    requires
        before.active is Some,
        is_quiet(before.watchdog, (before.active->0).common.watchdog),
        taken_in(before, now, JobEvent::NamespaceRead(result), after, r),
    ensures
        r is Answered,
        answers_result(r->Answered_0, (before.active->0).common.responder, result),
{
    lemma_quiet(before.watchdog, (before.active->0).common.watchdog);
}

/// What is still pending answers nobody and changes nothing.
pub proof fn law_pending_work_stays_pending(
    before: RunnerView,
    now: nat,
    after: RunnerView,
    r: Reported,
)
    requires
        before.active is Some,
        taken_in(before, now, JobEvent::Observed(PromiseReading::Pending), after, r) || taken_in(
            before,
            now,
            JobEvent::Evaluated(EvaluationReading::Pending),
            after,
            r,
        ),
    ensures
        r is Pending,
        after == before,
{
}

/// The time is before the job's deadline, if it has one.
pub open spec fn in_time(job: Job, now: nat) -> bool {
    job.common.deadline is Some ==> now < (job.common.deadline->0)@
}

/// Work that was started is waited for: the next poll in time looks at the promise, or
/// the evaluation of the module, that starting it produced, and at no other.
pub proof fn law_started_work_is_looked_at(
    before: RunnerView,
    now: nat,
    handle: u64,
    between: RunnerView,
    told: Reported,
    later: nat,
    after: RunnerView,
    r: Advance,
)
    requires
        before.active is Some,
        taken_in(
            before,
            now,
            JobEvent::Started(StartOutcome::Waiting { handle }),
            between,
            told,
        ),
        in_time(before.active->0, later),
        advanced(between, later, after, r),
    ensures
        told is Pending,
        r == Advance::Perform(
            if (before.active->0).body is EvalModule {
                JobPoll::CheckEvaluation { module: handle }
            } else {
                JobPoll::CheckPromise { promise: handle }
            },
        ),
        after == between,
        after.core == before.core,
        after.pending == before.pending,
{
}

/// A module that was evaluated has its namespace read next, and that of no other.
pub proof fn law_evaluated_modules_are_read(
    before: RunnerView,
    now: nat,
    handle: u64,
    between: RunnerView,
    told: Reported,
    later: nat,
    after: RunnerView,
    r: Advance,
)
    requires
        before.active is Some,
        (before.active->0).stage == (JobStage::Waiting { handle }),
        taken_in(before, now, JobEvent::Evaluated(EvaluationReading::Evaluated), between, told),
        in_time(before.active->0, later),
        advanced(between, later, after, r),
    ensures
        told is Pending,
        r == Advance::Perform(JobPoll::ReadNamespace { module: handle }),
        after == between,
{
}

/// A job that was not advanced yet is started, in time, and its task locals are
/// published for the ops and the module loader; without task locals nothing changes.
pub proof fn law_new_jobs_are_started(before: RunnerView, now: nat, after: RunnerView, r: Advance)
    requires
        before.active is Some,
        (before.active->0).stage == JobStage::NotStarted,
        in_time(before.active->0, now),
        advanced(before, now, after, r),
    ensures
        r == Advance::Perform(JobPoll::Start),
        after.active == before.active,
        match (before.active->0).common.task_locals {
            Some(locals) => {
                &&& after.core.task_locals == Some(locals)
                &&& after.core.op_task_locals == Some(locals)
                &&& after.core.loader.task_locals == Some(locals)
            },
            None => after.core == before.core,
        },
{
}

/// A job that is polled at or past its deadline is answered with a timeout that tells
/// what timed out and after how many milliseconds, whatever its promise would have
/// been; the next job is activated.
pub proof fn law_late_jobs_time_out(before: RunnerView, now: nat, after: RunnerView, r: Advance)
    requires
        before.active is Some,
        !in_time(before.active->0, now),
        is_quiet(before.watchdog, (before.active->0).common.watchdog),
        advanced(before, now, after, r),
    ensures
        r is Answered,
        answers_error(
            r->Answered_0,
            (before.active->0).common.responder,
            ErrorView::Timeout(
                (match (before.active->0).common.wording {
                    TimeoutWording::Eval => "Evaluation"@,
                    TimeoutWording::EvalModule => "Module evaluation"@,
                    TimeoutWording::CallFunction => "Function call"@,
                    TimeoutWording::StreamRead => ""@,
                }) + " timed out after "@ + decimal(
                    match (before.active->0).common.timeout_ms {
                        Some(ms) => ms as nat,
                        None => 0,
                    },
                ) + "ms"@ + (if (before.active->0).common.wording == TimeoutWording::Eval {
                    " (promise still pending)"@
                } else {
                    ""@
                }),
            ),
        ),
        before.pending.len() > 0 ==> after.active == Some(before.pending[0]),
        before.pending.len() == 0 ==> after.active is None,
        !after.termination.latched,
        after.termination.status == before.termination.status,
{
    lemma_quiet(before.watchdog, (before.active->0).common.watchdog);
}

/// A job whose watchdog went off is answered with a timeout, even if its work came to
/// an end meanwhile; the isolate is not left stopped.
pub proof fn law_overrun_jobs_time_out(
    before: RunnerView,
    now: nat,
    value: JSValue,
    after: RunnerView,
    r: Reported,
)
    requires
        before.active is Some,
        !((before.active->0).body is StreamRead),
        has_gone_off(before.watchdog, (before.active->0).common.watchdog),
        taken_in(
            before,
            now,
            JobEvent::Observed(PromiseReading::Fulfilled(Ok(value))),
            after,
            r,
        ) || taken_in(before, now, JobEvent::NamespaceRead(Ok(value)), after, r),
    ensures
        r is Answered,
        answers_error(
            r->Answered_0,
            (before.active->0).common.responder,
            ErrorView::Timeout(
                (match (before.active->0).common.wording {
                    TimeoutWording::Eval => "Async evaluation"@,
                    TimeoutWording::EvalModule => "Async module evaluation"@,
                    TimeoutWording::CallFunction => "Async function call"@,
                    TimeoutWording::StreamRead => "Stream read"@,
                }) + " timed out after "@ + decimal(
                    ((before.active->0).common.watchdog->0).duration@ / 1_000_000,
                ) + "ms"@,
            ),
        ),
        !after.termination.latched,
        after.termination.status == before.termination.status,
{
    lemma_quiet(before.watchdog, (before.active->0).common.watchdog);
}

/// Every job that is answered is counted once, under its own kind, with the time since
/// it started; its task locals are dropped, and the jobs behind it move up one place.
pub proof fn law_answered_jobs_are_counted(
    before: RunnerView,
    now: nat,
    event: JobEvent,
    after: RunnerView,
    r: Reported,
    kind: RuntimeCallKind,
)
    requires
        before.active is Some,
        before.core.stats.counters.len() == 6,
        (before.active->0).common.start_time@ <= now,
        taken_in(before, now, event, after, r),
        r is Answered,
    ensures
        after.core.stats.last == Some((now - (before.active->0).common.start_time@) as nat),
        after.core.stats.last_kind == Some((before.active->0).common.kind),
        counter(after.core, kind) == if kind == (before.active->0).common.kind && counter(
            before.core,
            kind,
        ) < u64::MAX {
            counter(before.core, kind) + 1
        } else {
            counter(before.core, kind) as int
        },
        after.core.task_locals is None,
        after.core.op_task_locals is None,
        after.core.loader.task_locals is None,
        before.pending.len() > 0 ==> after.active == Some(before.pending[0]) && after.pending
            == before.pending.drop_first(),
        before.pending.len() == 0 ==> after.active is None && after.pending == before.pending,
{
}

/// How often calls of a kind were made.
pub open spec fn counter(core: CoreView, kind: RuntimeCallKind) -> u64 {
    core.stats.counters[match kind {
        RuntimeCallKind::EvalSync => 0,
        RuntimeCallKind::EvalAsync => 1,
        RuntimeCallKind::EvalModuleSync => 2,
        RuntimeCallKind::EvalModuleAsync => 3,
        RuntimeCallKind::CallFunctionAsync => 4,
        RuntimeCallKind::CallFunctionSync => 5,
    }]
}

/// A read from a stream gives the caller the chunk that the reader gave: `done` and
/// the value as they were. The last chunk releases the stream, and no other does.
pub proof fn law_stream_reads_give_their_chunk(
    before: RunnerView,
    now: nat,
    stream_id: u32,
    payload: JSValue,
    done: bool,
    value: JsView,
    after: RunnerView,
    r: Reported,
)
    requires
        before.active is Some,
        (before.active->0).body == (JobBody::StreamRead { stream_id }),
        is_quiet(before.watchdog, (before.active->0).common.watchdog),
        payload.view() == JsView::Object(
            seq![("done"@, JsView::Bool(done)), ("value"@, value)],
        ) || payload.view() == JsView::Object(
            seq![("value"@, value), ("done"@, JsView::Bool(done))],
        ),
        taken_in(
            before,
            now,
            JobEvent::Observed(PromiseReading::Fulfilled(Ok(payload))),
            after,
            r,
        ),
    ensures
        r is Answered,
        answers_value(
            r->Answered_0,
            (before.active->0).common.responder,
            JsView::Object(
                seq![
                    ("__pydeno_type"@, JsView::String("StreamChunk"@)),
                    ("done"@, JsView::Bool(done)),
                    ("value"@, value),
                ],
            ),
        ),
        after.core.streams.entries.contains_key(stream_id) <==> !done
            && before.core.streams.entries.contains_key(stream_id),
{
    lemma_quiet(before.watchdog, (before.active->0).common.watchdog);
    crate::stream::lemma_plain_chunk(payload.view(), done, value);
    assert(crate::stream::chunk_entries(
        crate::stream::ChunkView { done, value: Some(value) },
    ) =~= seq![
        ("__pydeno_type"@, JsView::String("StreamChunk"@)),
        ("done"@, JsView::Bool(done)),
        ("value"@, value),
    ]);
}

} // verus!
