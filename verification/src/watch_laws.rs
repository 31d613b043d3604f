//! What work leaves behind once it ended, and what a refused caller is told.

use crate::command_laws::{is_ready, put_in_line, says_nothing_of_termination};
use crate::commands::{
    call_answered, entry_finished, handled, EntryOutcome, Handled, Reply, RuntimeCommand, TaskClock,
};
use crate::core_state::{timed_answer, CallClock, CallOutcome};
use crate::dispatcher::{
    advanced, completed, step_ended, taken_in, Advance, LoopPoll, Reported, RunnerView, StepNext,
};
use crate::error::{ErrorView, JsExceptionDetails};
use crate::job_laws::{answers_error, counter, has_gone_off, is_quiet, is_running, lemma_quiet};
use crate::jobs::{Job, JobBody, JobEvent, JobStage, PromiseReading};
use crate::js_value::{lemma_view, JSValue, JsView};
use crate::stats::RuntimeCallKind;
use crate::termination::{
    ids_are_distinct, lemma_position_found, position_of, TerminationStatus, TerminationView,
    WatchdogToken, WatchdogView,
};
use crate::time::Duration;
use vstd::prelude::*;

verus! {

broadcast use lemma_view;

/// No deadline of the token is armed.
pub open spec fn is_unwatched(watchdog: WatchdogView, token: Option<WatchdogToken>) -> bool {
    token is Some ==> forall|k: int|
        0 <= k < watchdog.armed.len() ==> (#[trigger] watchdog.armed[k]).id != (token->0).id
}

proof fn lemma_disarmed_is_gone(watchdog: WatchdogView, id: u64)
    requires
        ids_are_distinct(watchdog),
    ensures
        forall|k: int|
            0 <= k < watchdog.disarmed(id).armed.len() ==> (
            #[trigger] watchdog.disarmed(id).armed[k]).id != id,
{
    let armed = watchdog.armed;
    let after = watchdog.disarmed(id).armed;
    lemma_position_found(armed, id);
    if position_of(armed, id) is Some {
        let at = position_of(armed, id)->0;
        let n = armed.len() - 1;
        assert forall|k: int| 0 <= k < after.len() implies (#[trigger] after[k]).id != id by {
            if k == at {
                assert(after[k] == armed[n]);
                assert(armed[at].id != armed[n].id);
            } else {
                assert(after[k] == armed[k]);
                if k < at {
                    assert(armed[k].id != armed[at].id);
                } else {
                    assert(armed[at].id != armed[k].id);
                }
            }
        }
    }
}

/// A script or module that ended is not watched any longer, however it ended.
pub proof fn law_ended_scripts_are_unwatched(
    before: RunnerView,
    clock: TaskClock,
    kind: RuntimeCallKind,
    context: Seq<char>,
    now: nat,
    outcome: EntryOutcome,
)
    requires
        ids_are_distinct(before.watchdog),
        before.core.stats.counters.len() == 6,
        clock.start@ <= now,
    ensures
        is_unwatched(
            entry_finished(before, clock, kind, context, now, outcome).0.watchdog,
            clock.watchdog,
        ),
        entry_finished(before, clock, kind, context, now, outcome).0.core.stats.last == Some(
            (now - clock.start@) as nat,
        ),
        entry_finished(before, clock, kind, context, now, outcome).0.core.stats.last_kind == Some(
            kind,
        ),
{
    if let Some(token) = clock.watchdog {
        lemma_disarmed_is_gone(before.watchdog, token.id);
    }
}

/// A synchronous call that ended is not watched any longer, however it ended, and is
/// counted once with the time that it took.
pub proof fn law_ended_calls_are_unwatched(
    before: RunnerView,
    clock: TaskClock,
    call: CallClock,
    now: nat,
    outcome: CallOutcome,
    after: RunnerView,
    reply: Reply,
    kind: RuntimeCallKind,
)
    requires
        ids_are_distinct(before.watchdog),
        before.core.stats.counters.len() == 6,
        clock.start@ <= now,
        call_answered(before, clock, call, now, outcome, after, reply.view()),
    ensures
        is_unwatched(after.watchdog, clock.watchdog),
        after.core.stats.last == Some((now - clock.start@) as nat),
        after.core.stats.last_kind == Some(RuntimeCallKind::CallFunctionSync),
        counter(after.core, kind) == if kind == RuntimeCallKind::CallFunctionSync && counter(
            before.core,
            kind,
        ) < u64::MAX {
            counter(before.core, kind) + 1
        } else {
            counter(before.core, kind) as int
        },
        after.active == before.active,
        after.pending == before.pending,
{
    if let Some(token) = clock.watchdog {
        lemma_disarmed_is_gone(before.watchdog, token.id);
    }
}

/// A job that was answered is not watched any longer.
pub proof fn law_answered_jobs_are_unwatched(
    before: RunnerView,
    now: nat,
    event: JobEvent,
    after: RunnerView,
    told: Reported,
    r: Advance,
)
    requires
        before.active is Some,
        ids_are_distinct(before.watchdog),
    ensures
        taken_in(before, now, event, after, told) && told is Answered ==> is_unwatched(
            after.watchdog,
            (before.active->0).common.watchdog,
        ),
        advanced(before, now, after, r) && r is Answered ==> is_unwatched(
            after.watchdog,
            (before.active->0).common.watchdog,
        ),
{
    if let Some(token) = (before.active->0).common.watchdog {
        lemma_disarmed_is_gone(before.watchdog, token.id);
    }
}

/// A step of the loop is watched no longer than it lasts; a watchdog of it that went off
/// leaves the isolate running.
pub proof fn law_ended_steps_are_unwatched(
    before: RunnerView,
    token: WatchdogToken,
    poll: LoopPoll,
    now: nat,
    after: RunnerView,
    next: StepNext,
)
    requires
        ids_are_distinct(before.watchdog),
        poll is Pending || poll is Drained,
        step_ended(before, Some(token), poll, now, after, next),
    ensures
        is_unwatched(after.watchdog, Some(token)),
        has_gone_off(before.watchdog, Some(token)) ==> !after.termination.latched,
        is_quiet(before.watchdog, Some(token)) ==> after.termination == before.termination,
        after.termination.status == before.termination.status,
        after.active == before.active,
        after.pending == before.pending,
        after.core == before.core,
{
    lemma_disarmed_is_gone(before.watchdog, token.id);
    lemma_quiet(before.watchdog, Some(token));
}

/// Work that failed for a reason of its own is answered with that reason, even if its
/// watchdog went off meanwhile; only what the watchdog stopped is a timeout.
pub proof fn law_own_failures_outlive_the_timeout(
    watchdog: WatchdogView,
    termination: TerminationView,
    err: ErrorView,
    token: WatchdogToken,
    context: Seq<char>,
)
    requires
        has_gone_off(watchdog, Some(token)),
    ensures
        says_nothing_of_termination(err) ==> timed_answer::<JsView>(
            watchdog,
            termination,
            Err(err),
            Some(token),
            context,
        ).0 == Err::<JsView, _>(err),
        err is Terminated || err is ForceKilled ==> timed_answer::<JsView>(
            watchdog,
            termination,
            Err(err),
            Some(token),
            context,
        ).0 is Err && timed_answer::<JsView>(
            watchdog,
            termination,
            Err(err),
            Some(token),
            context,
        ).0->Err_0 is Timeout,
{
    lemma_quiet(watchdog, Some(token));
}

/// A script that threw is answered with its exception even if its watchdog went off
/// meanwhile.
pub proof fn law_thrown_exceptions_outlive_the_timeout(
    before: RunnerView,
    clock: TaskClock,
    kind: RuntimeCallKind,
    context: Seq<char>,
    now: nat,
    details: JsExceptionDetails,
    after: RunnerView,
    reply: Reply,
)
    requires
        is_running(before.core, before.termination),
        has_gone_off(before.watchdog, clock.watchdog),
        says_nothing_of_termination(ErrorView::JavaScript(details@)),
        (after, reply.view()) == entry_finished(
            before,
            clock,
            kind,
            context,
            now,
            EntryOutcome::Threw(details),
        ),
    ensures
        answers_error(reply, clock.responder, ErrorView::JavaScript(details@)),
        !after.termination.latched,
{
    lemma_quiet(before.watchdog, clock.watchdog);
}

/// A job that is completed is answered with exactly the result it is completed with,
/// unless its watchdog went off; a job that moves up gets its turn without a wait.
pub proof fn law_completed_jobs_are_answered(
    before: RunnerView,
    now: nat,
    result: Result<JsView, ErrorView>,
)
    requires
        before.active is Some,
        is_quiet(before.watchdog, (before.active->0).common.watchdog),
    ensures
        ({
            let (after, answer) = completed(before, now, result);
            &&& answer is Some
            &&& (answer->0).responder == (before.active->0).common.responder
            &&& (answer->0).body is Value
            &&& (answer->0).body->Value_0 == result
            &&& before.pending.len() > 0 ==> after.fresh && after.active == Some(before.pending[0])
            &&& before.pending.len() == 0 ==> after.active is None && after.fresh == before.fresh
        }),
        completed(RunnerView { active: None, ..before }, now, result).1 is None,
        completed(RunnerView { active: None, ..before }, now, result).0 == (RunnerView {
            active: None,
            ..before
        }),
{
    lemma_quiet(before.watchdog, (before.active->0).common.watchdog);
}

/// Without a job there is nothing to advance and nothing to report on.
pub proof fn law_nothing_happens_without_a_job(
    before: RunnerView,
    now: nat,
    event: JobEvent,
    after: RunnerView,
    told: Reported,
    r: Advance,
)
    requires
        before.active is None,
    ensures
        taken_in(before, now, event, after, told) ==> told is NoJob && after == before,
        advanced(before, now, after, r) ==> r is NoJob && after == before,
{
}

/// A reader that gives something that is no object gives no chunk: the job is not
/// answered with it, and stays.
pub proof fn law_bad_chunks_are_told(
    before: RunnerView,
    now: nat,
    stream_id: u32,
    payload: JSValue,
    after: RunnerView,
    told: Reported,
)
    requires
        before.active is Some,
        (before.active->0).body == (JobBody::StreamRead { stream_id }),
        !(payload.view() is Object),
        taken_in(
            before,
            now,
            JobEvent::Observed(PromiseReading::Fulfilled(Ok(payload))),
            after,
            told,
        ),
    ensures
        told is BadChunk,
        after.core == before.core,
        after.pending == before.pending,
        after.active is Some,
        (after.active->0).common == (before.active->0).common,
{
}

/// A job that is put in line where none is active gets its first turn without a wait.
pub proof fn law_first_jobs_get_their_turn_at_once(
    before: RunnerView,
    now: Duration,
    cmd: RuntimeCommand,
    after: RunnerView,
    r: Handled,
)
    requires
        is_ready(before),
        cmd is EvalAsync || cmd is EvalModuleAsync || cmd is CallFunctionAsync || cmd is StreamRead,
        handled(before, now, cmd, after, r),
    ensures
        before.active is None ==> after.fresh && after.active is Some,
        before.active is Some ==> after.fresh == before.fresh && after.pending.len()
            == before.pending.len() + 1,
{
}

/// A call that is resumed reports the timeout that it was made with.
pub proof fn law_resumed_calls_report_their_timeout(
    before: RunnerView,
    now: Duration,
    call_id: u64,
    task_locals: Option<u64>,
    responder: u64,
    after: RunnerView,
    r: Handled,
)
    requires
        is_ready(before),
        before.core.pending.contains_key(call_id),
        before.core.pending[call_id].deadline is Some,
        before.core.pending[call_id].timeout_ms is Some,
        handled(
            before,
            now,
            RuntimeCommand::ResumeFunctionCall { call_id, task_locals, responder },
            after,
            r,
        ),
    ensures
        exists|job: Job|
            {
                &&& #[trigger] put_in_line(before, after, job)
                &&& job.common.watchdog is Some
                &&& (job.common.watchdog->0).duration@ == (
                before.core.pending[call_id].timeout_ms->0) * 1_000_000
                &&& (job.common.watchdog->0).id == after.watchdog.armed.last().id
            },
{
    let job = if before.active is None {
        after.active->0
    } else {
        after.pending.last()
    };
    assert(put_in_line(before, after, job));
}

/// A runtime that is to terminate refuses every command that is not about its end: the
/// one who sent it is answered, in the form that the command is answered in, with the
/// termination and its reason.
pub proof fn law_refusals_reach_their_sender(
    before: RunnerView,
    now: Duration,
    cmd: RuntimeCommand,
    after: RunnerView,
    r: Handled,
)
    requires
        before.core.terminated || before.termination.status != TerminationStatus::Running,
        handled(before, now, cmd, after, r),
    ensures
        ({
            let told = r->Reply_0.body;
            let err = ErrorView::Terminated(before.termination.reason);
            match cmd {
                RuntimeCommand::RegisterPythonOp { responder, .. } => r is Reply
                    && r->Reply_0.responder == responder && told is Token && told->Token_0 is Err
                    && told->Token_0->Err_0@ == err && after == before,
                RuntimeCommand::SetPythonOpExposure { responder, .. } => r is Reply
                    && r->Reply_0.responder == responder && told is Flag && told->Flag_0 is Err
                    && told->Flag_0->Err_0@ == err && after == before,
                RuntimeCommand::SetModuleResolver { responder, .. } => r is Reply
                    && r->Reply_0.responder == responder && told is Unit && told->Unit_0 is Err
                    && told->Unit_0->Err_0@ == err && after == before,
                RuntimeCommand::SetModuleLoader { responder, .. } => r is Reply
                    && r->Reply_0.responder == responder && told is Unit && told->Unit_0 is Err
                    && told->Unit_0->Err_0@ == err && after == before,
                RuntimeCommand::AddStaticModule { responder, .. } => r is Reply
                    && r->Reply_0.responder == responder && told is Unit && told->Unit_0 is Err
                    && told->Unit_0->Err_0@ == err && after == before,
                RuntimeCommand::BindObject { responder, .. } => r is Reply
                    && r->Reply_0.responder == responder && told is Unit && told->Unit_0 is Err
                    && told->Unit_0->Err_0@ == err && after == before,
                RuntimeCommand::ReleaseFunction { responder, .. } => r is Reply
                    && r->Reply_0.responder == responder && told is Unit && told->Unit_0 is Err
                    && told->Unit_0->Err_0@ == err && after == before,
                RuntimeCommand::CallFunctionSync { responder, .. } => r is Reply
                    && r->Reply_0.responder == responder && told is Call && told->Call_0 is Err
                    && told->Call_0->Err_0@ == err && after == before,
                RuntimeCommand::Eval { responder, .. } => r is Reply && answers_error(
                    r->Reply_0,
                    responder,
                    err,
                ) && after == before,
                RuntimeCommand::EvalAsync { responder, .. } => r is Reply && answers_error(
                    r->Reply_0,
                    responder,
                    err,
                ) && after == before,
                RuntimeCommand::EvalModule { responder, .. } => r is Reply && answers_error(
                    r->Reply_0,
                    responder,
                    err,
                ) && after == before,
                RuntimeCommand::EvalModuleAsync { responder, .. } => r is Reply && answers_error(
                    r->Reply_0,
                    responder,
                    err,
                ) && after == before,
                RuntimeCommand::CallFunctionAsync { responder, .. } => r is Reply
                    && answers_error(r->Reply_0, responder, err) && after == before,
                RuntimeCommand::ResumeFunctionCall { responder, .. } => r is Reply
                    && answers_error(r->Reply_0, responder, err) && after == before,
                RuntimeCommand::StreamRead { responder, .. } => r is Reply && answers_error(
                    r->Reply_0,
                    responder,
                    err,
                ) && after == before,
                _ => true,
            }
        }),
{
}

/// A job that is done is not asked about again: whoever polls it is told so.
pub proof fn law_done_jobs_are_not_run_again(
    before: RunnerView,
    now: nat,
    after: RunnerView,
    r: Advance,
)
    requires
        before.active is Some,
        (before.active->0).stage == JobStage::Done,
        advanced(before, now, after, r),
    ensures
        r is Answered,
        r->Answered_0.responder == (before.active->0).common.responder,
        r->Answered_0.body is Value,
        r->Answered_0.body->Value_0 is Err,
{
}

} // verus!
