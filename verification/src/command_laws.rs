//! What senders of commands can rely on, from what they ask for to what is done and
//! what they are answered.

use crate::binding::{property_views, BoundObjectProperty};
use crate::commands::{
    call_answered, entry_finished, handled, EntryOutcome, Handled, Reply, RuntimeCommand, TaskClock,
};
use crate::core_state::{
    CallClock, CallOutcome, CoreView, InspectorWait, PendingFunctionCall, Returned,
};
use crate::dispatcher::{step_ended, work_wait, LoopPoll, RunnerView, StepNext};
use crate::double::Double;
use crate::error::{ErrorView, JsExceptionDetails, RuntimeError, RuntimeResult};
use crate::host_laws::{
    law_assignments_tell_their_property, law_bound_tokens_are_those_of_the_ops,
};
use crate::job_laws::{
    answers_error, answers_result, counter, has_gone_off, is_quiet, is_running, lemma_quiet,
};
use crate::jobs::{Job, JobBody, JobStage};
use crate::js_value::{lemma_view, lookup, JSValue, JsView};
use crate::ops::{js_token, PythonOpMode};
use crate::stats::RuntimeCallKind;
use crate::termination::{TerminationStatus, WatchdogToken, WatchdogView};
use crate::text::{decimal, has_substring};
use crate::time::{Duration, MAX_NANOS};
use vstd::prelude::*;

verus! {

broadcast use lemma_view;

/// The runtime is running and no debugger is waited for.
pub open spec fn is_ready(runner: RunnerView) -> bool {
    &&& is_running(runner.core, runner.termination)
    &&& match runner.core.inspector {
        None => true,
        Some(gate) => gate.has_waited || (!gate.wait_for_connection
            && !gate.break_on_next_statement),
    }
}

/// Nothing but the deadlines and the waiting for a debugger differs.
pub open spec fn same_but_watched(before: RunnerView, after: RunnerView) -> bool {
    after == (RunnerView {
        core: CoreView { inspector: after.core.inspector, ..before.core },
        watchdog: after.watchdog,
        ..before
    })
}

/// A deadline this long from `now` was armed under the token, and no other; without a
/// span none was.
pub open spec fn armed_by(
    before: WatchdogView,
    now: nat,
    span: Option<nat>,
    token: Option<WatchdogToken>,
    after: WatchdogView,
) -> bool {
    match span {
        None => token is None && after == before,
        Some(nanos) => {
            &&& token is Some
            &&& (token->0).duration@ == nanos
            &&& after.armed.len() == before.armed.len() + 1
            &&& after.armed.drop_last() == before.armed
            &&& after.armed.last().id == (token->0).id
            &&& !after.armed.last().fired
            &&& now + nanos <= MAX_NANOS ==> after.armed.last().deadline == now + nanos
        },
    }
}

/// The timeout of a call: its own, or else the whole milliseconds of the runtime's.
pub open spec fn timeout_in_force(core: CoreView, timeout_ms: Option<u64>, ms: Option<u64>) -> bool {
    match timeout_ms {
        Some(own) => ms == Some(own),
        None => match core.execution_timeout {
            Some(nanos) => {
                &&& ms is Some
                &&& nanos / 1_000_000 <= u64::MAX ==> (ms->0) as nat == nanos / 1_000_000
                &&& nanos / 1_000_000 > u64::MAX ==> ms->0 == u64::MAX
            },
            None => ms is None,
        },
    }
}

/// The span of a timeout in milliseconds.
pub open spec fn span_of_ms(ms: Option<u64>) -> Option<nat> {
    match ms {
        Some(n) => Some((n * 1_000_000) as nat),
        None => None,
    }
}

/// The job that a command put in line: at once, or behind those that are there.
pub open spec fn put_in_line(before: RunnerView, after: RunnerView, job: Job) -> bool {
    if before.active is None {
        after.active == Some(job) && after.pending == before.pending
    } else {
        after.active == before.active && after.pending == before.pending.push(job)
    }
}

/// A job that just began, and is watched for as long as its timeout allows.
pub open spec fn watched_job(
    before: RunnerView,
    now: Duration,
    timeout_ms: Option<u64>,
    task_locals: Option<u64>,
    responder: u64,
    after: RunnerView,
    job: Job,
) -> bool {
    &&& put_in_line(before, after, job)
    &&& job.stage == JobStage::NotStarted
    &&& job.common.responder == responder
    &&& job.common.task_locals == task_locals
    &&& job.common.start_time == now
    &&& timeout_in_force(before.core, timeout_ms, job.common.timeout_ms)
    &&& match job.common.timeout_ms {
        None => job.common.deadline is None,
        Some(ms) => {
            &&& job.common.deadline is Some
            &&& now@ + ms * 1_000_000 <= MAX_NANOS ==> (job.common.deadline->0)@ == now@ + ms
                * 1_000_000
            &&& now@ + ms * 1_000_000 > MAX_NANOS ==> (job.common.deadline->0)@ == MAX_NANOS
        },
    }
    &&& armed_by(
        before.watchdog,
        now@,
        span_of_ms(job.common.timeout_ms),
        job.common.watchdog,
        after.watchdog,
    )
}

/// An asynchronous evaluation is put in line with its script, its caller and its task
/// locals. It has a deadline and a watchdog whenever it, or the runtime, has a timeout.
pub proof fn law_async_evaluations_are_put_in_line(
    before: RunnerView,
    now: Duration,
    code: String,
    timeout_ms: Option<u64>,
    task_locals: Option<u64>,
    responder: u64,
    after: RunnerView,
    r: Handled,
)
    requires
        is_ready(before),
        handled(
            before,
            now,
            RuntimeCommand::EvalAsync { code, timeout_ms, task_locals, responder },
            after,
            r,
        ),
    ensures
        r is Queued,
        exists|job: Job|
            {
                &&& #[trigger] watched_job(
                    before,
                    now,
                    timeout_ms,
                    task_locals,
                    responder,
                    after,
                    job,
                )
                &&& job.body == (JobBody::Eval { code })
                &&& job.common.kind == RuntimeCallKind::EvalAsync
            },
        after.core == (CoreView { inspector: after.core.inspector, ..before.core }),
        after.termination == before.termination,
{
    let job = if before.active is None {
        after.active->0
    } else {
        after.pending.last()
    };
    assert(after.watchdog.armed.len() > before.watchdog.armed.len()
        ==> after.watchdog.armed.drop_last() =~= before.watchdog.armed);
    assert(watched_job(before, now, timeout_ms, task_locals, responder, after, job));
}

/// An asynchronous module evaluation is put in line in the same way.
pub proof fn law_async_modules_are_put_in_line(
    before: RunnerView,
    now: Duration,
    specifier: String,
    timeout_ms: Option<u64>,
    task_locals: Option<u64>,
    responder: u64,
    after: RunnerView,
    r: Handled,
)
    requires
        is_ready(before),
        handled(
            before,
            now,
            RuntimeCommand::EvalModuleAsync { specifier, timeout_ms, task_locals, responder },
            after,
            r,
        ),
    ensures
        r is Queued,
        exists|job: Job|
            {
                &&& #[trigger] watched_job(
                    before,
                    now,
                    timeout_ms,
                    task_locals,
                    responder,
                    after,
                    job,
                )
                &&& job.body == (JobBody::EvalModule { specifier })
                &&& job.common.kind == RuntimeCallKind::EvalModuleAsync
            },
        after.core == (CoreView { inspector: after.core.inspector, ..before.core }),
        after.termination == before.termination,
{
    let job = if before.active is None {
        after.active->0
    } else {
        after.pending.last()
    };
    assert(after.watchdog.armed.len() > before.watchdog.armed.len()
        ==> after.watchdog.armed.drop_last() =~= before.watchdog.armed);
    assert(watched_job(before, now, timeout_ms, task_locals, responder, after, job));
}

/// An asynchronous call is put in line in the same way, with its function and its
/// arguments.
pub proof fn law_async_calls_are_put_in_line(
    before: RunnerView,
    now: Duration,
    fn_id: u32,
    args: Vec<JSValue>,
    timeout_ms: Option<u64>,
    task_locals: Option<u64>,
    responder: u64,
    after: RunnerView,
    r: Handled,
)
    requires
        is_ready(before),
        handled(
            before,
            now,
            RuntimeCommand::CallFunctionAsync { fn_id, args, timeout_ms, task_locals, responder },
            after,
            r,
        ),
    ensures
        r is Queued,
        exists|job: Job|
            {
                &&& #[trigger] watched_job(
                    before,
                    now,
                    timeout_ms,
                    task_locals,
                    responder,
                    after,
                    job,
                )
                &&& job.body == (JobBody::CallFunction { fn_id, args })
                &&& job.common.kind == RuntimeCallKind::CallFunctionAsync
            },
        after.core == (CoreView { inspector: after.core.inspector, ..before.core }),
        after.termination == before.termination,
{
    let job = if before.active is None {
        after.active->0
    } else {
        after.pending.last()
    };
    assert(after.watchdog.armed.len() > before.watchdog.armed.len()
        ==> after.watchdog.armed.drop_last() =~= before.watchdog.armed);
    assert(watched_job(before, now, timeout_ms, task_locals, responder, after, job));
}

/// A script is run as it was sent, for the caller who sent it, and watched for as long
/// as the runtime's timeout allows.
pub proof fn law_scripts_are_run(
    before: RunnerView,
    now: Duration,
    code: String,
    responder: u64,
    after: RunnerView,
    r: Handled,
)
    requires
        is_ready(before),
        handled(before, now, RuntimeCommand::Eval { code, responder }, after, r),
    ensures
        r is Perform,
        r->Perform_0 is Eval,
        r->Perform_0->code == code,
        (r->Perform_0->Eval_clock).responder == responder,
        (r->Perform_0->Eval_clock).start == now,
        armed_by(
            before.watchdog,
            now@,
            before.core.execution_timeout,
            (r->Perform_0->Eval_clock).watchdog,
            after.watchdog,
        ),
        same_but_watched(before, after),
{
    assert(after.watchdog.armed.len() > before.watchdog.armed.len()
        ==> after.watchdog.armed.drop_last() =~= before.watchdog.armed);
}

/// A module is evaluated under the name it was sent with, in the same way.
pub proof fn law_modules_are_evaluated(
    before: RunnerView,
    now: Duration,
    specifier: String,
    responder: u64,
    after: RunnerView,
    r: Handled,
)
    requires
        is_ready(before),
        handled(before, now, RuntimeCommand::EvalModule { specifier, responder }, after, r),
    ensures
        r is Perform,
        r->Perform_0 is EvalModule,
        r->Perform_0->specifier == specifier,
        (r->Perform_0->EvalModule_clock).responder == responder,
        (r->Perform_0->EvalModule_clock).start == now,
        armed_by(
            before.watchdog,
            now@,
            before.core.execution_timeout,
            (r->Perform_0->EvalModule_clock).watchdog,
            after.watchdog,
        ),
        same_but_watched(before, after),
{
    assert(after.watchdog.armed.len() > before.watchdog.armed.len()
        ==> after.watchdog.armed.drop_last() =~= before.watchdog.armed);
}

/// A function that is known is called with the arguments that were sent, and watched
/// for as long as its timeout, or else the runtime's, allows; one that is not known is
/// answered with an error that names it.
pub proof fn law_functions_are_called(
    before: RunnerView,
    now: Duration,
    fn_id: u32,
    args: Vec<JSValue>,
    timeout_ms: Option<u64>,
    responder: u64,
    after: RunnerView,
    r: Handled,
)
    requires
        is_ready(before),
        handled(
            before,
            now,
            RuntimeCommand::CallFunctionSync { fn_id, args, timeout_ms, responder },
            after,
            r,
        ),
    ensures
        before.core.functions.stored.contains_key(fn_id) ==> same_but_watched(before, after)
            && {
                let clock = r->Perform_0->CallFunction_clock;
                let call = r->Perform_0->call;
                &&& r is Perform
                &&& r->Perform_0 is CallFunction
                &&& r->Perform_0->fn_id == fn_id
                &&& r->Perform_0->args == args
                &&& clock.responder == responder
                &&& clock.start == now
                &&& call.start_time == now
                &&& timeout_in_force(before.core, timeout_ms, call.timeout_ms)
                &&& call.timeout_ms is None <==> call.deadline is None
                &&& call.timeout_ms is Some && now@ + (call.timeout_ms->0) * 1_000_000
                    <= MAX_NANOS ==> (call.deadline->0)@ == now@ + (call.timeout_ms->0)
                    * 1_000_000
                &&& armed_by(
                    before.watchdog,
                    now@,
                    span_of_ms(call.timeout_ms),
                    clock.watchdog,
                    after.watchdog,
                )
            },
        !before.core.functions.stored.contains_key(fn_id) ==> {
            &&& r is Reply
            &&& r->Reply_0.responder == responder
            &&& r->Reply_0.body is Call
            &&& r->Reply_0.body->Call_0 is Err
            &&& after.core.functions == before.core.functions
            &&& after.core.pending == before.core.pending
        },
{
    if before.core.functions.stored.contains_key(fn_id) {
        assert(after.watchdog.armed.len() > before.watchdog.armed.len()
            ==> after.watchdog.armed.drop_last() =~= before.watchdog.armed);
    }
}

/// A call that was parked goes on as a job that awaits its promise, on the clock that
/// it started with; it can be resumed once only.
pub proof fn law_parked_calls_are_resumed(
    before: RunnerView,
    now: Duration,
    call_id: u64,
    task_locals: Option<u64>,
    responder: u64,
    after: RunnerView,
    r: Handled,
)
    requires
        is_ready(before),
        handled(
            before,
            now,
            RuntimeCommand::ResumeFunctionCall { call_id, task_locals, responder },
            after,
            r,
        ),
    ensures
        !after.core.pending.contains_key(call_id),
        before.core.pending.contains_key(call_id) ==> r is Queued && exists|job: Job|
            {
                let parked = before.core.pending[call_id];
                &&& #[trigger] put_in_line(before, after, job)
                &&& job.body == (JobBody::Resume { promise: parked.promise })
                &&& job.stage == JobStage::NotStarted
                &&& job.common.responder == responder
                &&& job.common.task_locals == task_locals
                &&& job.common.start_time == parked.start_time
                &&& job.common.deadline == parked.deadline
                &&& job.common.timeout_ms == parked.timeout_ms
                &&& job.common.kind == RuntimeCallKind::CallFunctionAsync
                &&& job.common.watchdog is Some <==> parked.deadline is Some
            },
        !before.core.pending.contains_key(call_id) ==> {
            &&& r is Reply
            &&& r->Reply_0.responder == responder
            &&& r->Reply_0.body is Value
            &&& r->Reply_0.body->Value_0 is Err
            &&& after.core.pending == before.core.pending
            &&& after.active == before.active
        },
        forall|other: u64|
            other != call_id && before.core.pending.contains_key(other)
                ==> #[trigger] after.core.pending.contains_key(other) && after.core.pending[other]
                == before.core.pending[other],
{
    if before.core.pending.contains_key(call_id) {
        let job = if before.active is None {
            after.active->0
        } else {
            after.pending.last()
        };
        assert(put_in_line(before, after, job));
    }
}

/// Code does not start while a debugger is waited for: the command is handed back as
/// it was, with what to wait for, and nothing is run.
pub proof fn law_debuggers_are_waited_for(
    before: RunnerView,
    now: Duration,
    cmd: RuntimeCommand,
    after: RunnerView,
    r: Handled,
)
    requires
        is_running(before.core, before.termination),
        before.core.inspector is Some,
        !(before.core.inspector->0).has_waited,
        (before.core.inspector->0).wait_for_connection
            || (before.core.inspector->0).break_on_next_statement,
        cmd is Eval || cmd is EvalAsync || cmd is EvalModule || cmd is EvalModuleAsync
            || cmd is CallFunctionSync || cmd is CallFunctionAsync || cmd is ResumeFunctionCall,
        handled(before, now, cmd, after, r),
    ensures
        r == (Handled::Wait {
            wait: if (before.core.inspector->0).break_on_next_statement {
                InspectorWait::SessionAndBreak
            } else {
                InspectorWait::Session
            },
            command: cmd,
        }),
        after.active == before.active,
        after.pending == before.pending,
        after.watchdog == before.watchdog,
        after.core.inspector is Some && (after.core.inspector->0).has_waited,
{
}

/// A read from a stream is put in line for its caller, without a deadline.
pub proof fn law_stream_reads_are_put_in_line(
    before: RunnerView,
    now: Duration,
    stream_id: u32,
    responder: u64,
    after: RunnerView,
    r: Handled,
)
    requires
        is_running(before.core, before.termination),
        handled(before, now, RuntimeCommand::StreamRead { stream_id, responder }, after, r),
    ensures
        r is Queued,
        exists|job: Job|
            {
                &&& #[trigger] put_in_line(before, after, job)
                &&& job.body == (JobBody::StreamRead { stream_id })
                &&& job.stage == JobStage::NotStarted
                &&& job.common.responder == responder
                &&& job.common.deadline is None
                &&& job.common.watchdog is None
            },
        after.core == before.core,
        after.watchdog == before.watchdog,
{
    let job = if before.active is None {
        after.active->0
    } else {
        after.pending.last()
    };
    assert(put_in_line(before, after, job));
}

/// A callable that was registered is kept under the token that its caller is told,
/// which was not taken; it is reached by no guest before it is exposed.
pub proof fn law_registered_ops_are_kept(
    before: RunnerView,
    now: Duration,
    name: String,
    mode: PythonOpMode,
    handler: u64,
    responder: u64,
    after: RunnerView,
    r: Handled,
)
    requires
        is_running(before.core, before.termination),
        handled(
            before,
            now,
            RuntimeCommand::RegisterPythonOp { name, mode, handler, responder },
            after,
            r,
        ),
    ensures
        r is Reply,
        r->Reply_0.responder == responder,
        r->Reply_0.body is Token,
        r->Reply_0.body->Token_0 is Ok ==> {
            let id = r->Reply_0.body->Token_0->Ok_0;
            &&& 1 <= id <= 9007199254740991
            &&& !before.core.ops.handlers.contains_key(id)
            &&& after.core.ops.handlers.contains_key(id)
            &&& after.core.ops.handlers[id].id == id
            &&& after.core.ops.handlers[id].name@ == name@
            &&& after.core.ops.handlers[id].mode == mode
            &&& after.core.ops.handlers[id].handler == handler
            &&& after.core.ops.handlers.remove(id) == before.core.ops.handlers
        },
        r->Reply_0.body->Token_0 is Err ==> after == before,
        after.core.ops.exposed == before.core.ops.exposed,
{
    if r->Reply_0.body->Token_0 is Ok {
        let id = r->Reply_0.body->Token_0->Ok_0;
        assert(after.core.ops.handlers.remove(id) =~= before.core.ops.handlers);
    }
}

/// Exposing a registered op makes it reachable and revoking it forgets it; the caller
/// is told whether it was registered, and no other op is touched.
pub proof fn law_exposure_is_set(
    before: RunnerView,
    now: Duration,
    op_id: u64,
    exposed: bool,
    responder: u64,
    after: RunnerView,
    r: Handled,
    other: u64,
)
    requires
        is_running(before.core, before.termination),
        handled(
            before,
            now,
            RuntimeCommand::SetPythonOpExposure { op_id, exposed, responder },
            after,
            r,
        ),
    ensures
        r is Reply,
        r->Reply_0.responder == responder,
        r->Reply_0.body is Flag,
        r->Reply_0.body->Flag_0 == Ok::<bool, RuntimeError>(
            before.core.ops.handlers.contains_key(op_id),
        ),
        exposed && before.core.ops.handlers.contains_key(op_id) ==> {
            &&& after.core.ops.exposed.contains(op_id)
            &&& after.core.ops.handlers == before.core.ops.handlers
        },
        !exposed ==> !after.core.ops.exposed.contains(op_id)
            && !after.core.ops.handlers.contains_key(op_id),
        other != op_id ==> (after.core.ops.exposed.contains(other)
            <==> before.core.ops.exposed.contains(other)) && (
        after.core.ops.handlers.contains_key(other) <==> before.core.ops.handlers.contains_key(
            other,
        )) && (before.core.ops.handlers.contains_key(other)
            ==> after.core.ops.handlers[other] == before.core.ops.handlers[other]),
{
}

/// The module resolver, the module loader and a static module are kept as they were
/// given, and nothing else of the loader's changes.
pub proof fn law_modules_are_configured(
    before: RunnerView,
    now: Duration,
    handler: u64,
    name: String,
    source: String,
    responder: u64,
    after: RunnerView,
    r: Handled,
)
    requires
        is_running(before.core, before.termination),
        handled(
            before,
            now,
            RuntimeCommand::SetModuleResolver { handler, responder },
            after,
            r,
        ) || handled(before, now, RuntimeCommand::SetModuleLoader { handler, responder }, after, r)
            || handled(
            before,
            now,
            RuntimeCommand::AddStaticModule { name, source, responder },
            after,
            r,
        ),
    ensures
        r is Reply,
        r->Reply_0.responder == responder,
        r->Reply_0.body is Unit,
        r->Reply_0.body->Unit_0 is Ok,
        handled(before, now, RuntimeCommand::SetModuleResolver { handler, responder }, after, r)
            ==> after.core.loader.resolver == Some(handler) && after.core.loader.loader
            == before.core.loader.loader && after.core.loader.modules
            == before.core.loader.modules,
        handled(before, now, RuntimeCommand::SetModuleLoader { handler, responder }, after, r)
            ==> after.core.loader.loader == Some(handler) && after.core.loader.resolver
            == before.core.loader.resolver && after.core.loader.modules
            == before.core.loader.modules,
        handled(
            before,
            now,
            RuntimeCommand::AddStaticModule { name, source, responder },
            after,
            r,
        ) ==> after.core.loader.modules.contains_key(name@) && after.core.loader.modules[name@]
            == source@ && after.core.loader.modules.remove(name@)
            == before.core.loader.modules.remove(name@) && after.core.loader.resolver
            == before.core.loader.resolver && after.core.loader.loader
            == before.core.loader.loader,
        after.core.ops == before.core.ops,
        after.core.functions == before.core.functions,
        after.active == before.active,
        after.pending == before.pending,
{
    assert(before.core.loader.modules.insert(name@, source@).remove(name@)
        =~= before.core.loader.modules.remove(name@));
}

/// A function that was released is gone, and no other is.
pub proof fn law_functions_are_released(
    before: RunnerView,
    now: Duration,
    fn_id: u32,
    responder: u64,
    after: RunnerView,
    r: Handled,
)
    requires
        is_running(before.core, before.termination),
        handled(before, now, RuntimeCommand::ReleaseFunction { fn_id, responder }, after, r),
    ensures
        r is Reply,
        r->Reply_0.responder == responder,
        r->Reply_0.body is Unit,
        r->Reply_0.body->Unit_0 is Ok,
        after.core.functions.stored == before.core.functions.stored.remove(fn_id),
        after.core.functions.next_id == before.core.functions.next_id,
{
}

/// A stream that was released is gone, and no other is; its caller is answered with
/// success exactly if there was one.
pub proof fn law_streams_are_released(
    before: RunnerView,
    now: Duration,
    stream_id: u32,
    responder: u64,
    after: RunnerView,
    r: Handled,
)
    requires
        handled(before, now, RuntimeCommand::StreamRelease { stream_id, responder }, after, r),
    ensures
        r is Reply,
        r->Reply_0.responder == responder,
        r->Reply_0.body is Unit,
        r->Reply_0.body->Unit_0 is Ok <==> before.core.streams.entries.contains_key(stream_id),
        after.core.streams.entries == before.core.streams.entries.remove(stream_id),
        after.core.streams.total == before.core.streams.total,
        after.core.streams.bytes == before.core.streams.bytes,
{
    assert(after.core.streams.entries =~= before.core.streams.entries.remove(stream_id));
}

/// Terminating answers everybody: the callers of all jobs with an error, and the one
/// who asked with success. Nothing is left to run, and the runtime is terminated.
pub proof fn law_terminate_ends_everything(
    before: RunnerView,
    now: Duration,
    responder: u64,
    after: RunnerView,
    r: Handled,
)
    requires
        handled(before, now, RuntimeCommand::Terminate { responder }, after, r),
    ensures
        r is Exit,
        r->Exit_0@.len() == 1 + before.pending.len() + (if before.active is Some {
            1int
        } else {
            0
        }),
        r->Exit_0@.last().responder == responder,
        r->Exit_0@.last().body is Unit,
        r->Exit_0@.last().body->Unit_0 is Ok,
        forall|i: int|
            0 <= i < r->Exit_0@.len() - 1 ==> (#[trigger] r->Exit_0@[i]).body is Value
                && r->Exit_0@[i].body->Value_0 is Err,
        after.active is None,
        after.pending.len() == 0,
        after.core.terminated,
        !before.core.terminated ==> after.termination.status == TerminationStatus::Terminated,
{
    let replies = r->Exit_0@;
    let shown = crate::commands::reply_views(replies);
    crate::dispatcher::law_termination_answers_every_job(before);
    assert(shown.len() == replies.len());
    assert(shown.last() == replies.last().view());
    assert forall|i: int| 0 <= i < replies.len() - 1 implies (#[trigger] replies[i]).body is Value
        && replies[i].body->Value_0 is Err by {
        assert(shown[i] == replies[i].view());
        assert(shown[i] == crate::dispatcher::aborted(before).1[i]);
    }
}

/// Shutting down confirms it to the caller, and lets go of every function.
pub proof fn law_shutdown_is_confirmed(
    before: RunnerView,
    now: Duration,
    responder: u64,
    after: RunnerView,
    r: Handled,
)
    requires
        handled(before, now, RuntimeCommand::Shutdown { responder }, after, r),
    ensures
        r is Exit,
        r->Exit_0@.len() == 1,
        r->Exit_0@[0].responder == responder,
        r->Exit_0@[0].body is Closed,
        after.core.functions.stored.dom() == Set::<u32>::empty(),
        after.core.task_locals is None,
{
    let replies = r->Exit_0@;
    let shown = crate::commands::reply_views(replies);
    assert(shown.len() == replies.len());
    assert(shown[0] == replies[0].view());
    assert(after.core.functions.stored.dom() =~= Set::<u32>::empty());
}

/// A runtime that was asked to terminate refuses new work: the caller is answered at
/// once with the termination and its reason, and nothing changes.
pub proof fn law_new_work_is_refused_once_terminating(
    before: RunnerView,
    now: Duration,
    cmd: RuntimeCommand,
    after: RunnerView,
    r: Handled,
)
    requires
        before.core.terminated || before.termination.status != TerminationStatus::Running,
        cmd is Eval || cmd is EvalAsync || cmd is EvalModule || cmd is EvalModuleAsync
            || cmd is CallFunctionAsync || cmd is ResumeFunctionCall || cmd is StreamRead,
        handled(before, now, cmd, after, r),
    ensures
        after == before,
        r is Reply,
        r->Reply_0.body is Value,
        r->Reply_0.body->Value_0 is Err,
        r->Reply_0.body->Value_0->Err_0@ == ErrorView::Terminated(before.termination.reason),
{
}

/// A script or a module that ran to its end is answered with exactly what it came to,
/// a value or an error, unless its watchdog went off; the call is counted.
pub proof fn law_results_are_returned(
    before: RunnerView,
    clock: TaskClock,
    kind: RuntimeCallKind,
    context: Seq<char>,
    now: nat,
    value: RuntimeResult<JSValue>,
    after: RunnerView,
    reply: Reply,
    other: RuntimeCallKind,
)
    requires
        is_quiet(before.watchdog, clock.watchdog),
        before.core.stats.counters.len() == 6,
        (after, reply.view()) == entry_finished(
            before,
            clock,
            kind,
            context,
            now,
            EntryOutcome::Finished(value),
        ),
    ensures
        answers_result(reply, clock.responder, value),
        counter(after.core, other) == if other == kind && counter(before.core, kind) < u64::MAX {
            counter(before.core, other) + 1
        } else {
            counter(before.core, other) as int
        },
        after.termination == before.termination,
        after.active == before.active,
        after.pending == before.pending,
{
    lemma_quiet(before.watchdog, clock.watchdog);
}

/// A script that threw is answered with its exception, and an engine that failed with
/// its error.
pub proof fn law_failed_scripts_raise(
    before: RunnerView,
    clock: TaskClock,
    kind: RuntimeCallKind,
    context: Seq<char>,
    now: nat,
    details: JsExceptionDetails,
    err: RuntimeError,
    after: RunnerView,
    reply: Reply,
)
    requires
        is_quiet(before.watchdog, clock.watchdog),
        is_running(before.core, before.termination),
    ensures
        (after, reply.view()) == entry_finished(
            before,
            clock,
            kind,
            context,
            now,
            EntryOutcome::Threw(details),
        ) ==> answers_error(reply, clock.responder, ErrorView::JavaScript(details@)),
        (after, reply.view()) == entry_finished(
            before,
            clock,
            kind,
            context,
            now,
            EntryOutcome::EngineFailed(err),
        ) ==> answers_error(reply, clock.responder, err@),
{
    lemma_quiet(before.watchdog, clock.watchdog);
}

/// A script or a module whose watchdog went off is answered with a timeout, whatever
/// value it came to.
pub proof fn law_overrun_scripts_time_out(
    before: RunnerView,
    clock: TaskClock,
    kind: RuntimeCallKind,
    context: Seq<char>,
    now: nat,
    value: JSValue,
    after: RunnerView,
    reply: Reply,
)
    requires
        has_gone_off(before.watchdog, clock.watchdog),
        (after, reply.view()) == entry_finished(
            before,
            clock,
            kind,
            context,
            now,
            EntryOutcome::Finished(Ok(value)),
        ),
    ensures
        answers_error(
            reply,
            clock.responder,
            ErrorView::Timeout(
                context + " timed out after "@ + decimal(
                    (clock.watchdog->0).duration@ / 1_000_000,
                ) + "ms"@,
            ),
        ),
        !after.termination.latched,
        after.termination.status == before.termination.status,
{
    lemma_quiet(before.watchdog, clock.watchdog);
}

/// A call whose function returned no promise is answered at once with exactly the
/// value that the function returned.
pub proof fn law_returned_values_are_answered(
    before: RunnerView,
    clock: TaskClock,
    call: CallClock,
    now: nat,
    value: JSValue,
    after: RunnerView,
    reply: Reply,
)
    requires
        is_quiet(before.watchdog, clock.watchdog),
        call_answered(
            before,
            clock,
            call,
            now,
            CallOutcome::Returned(Returned::Value(Ok(value))),
            after,
            reply.view(),
        ),
    ensures
        reply.responder == clock.responder,
        reply.body is Call,
        reply.body->Call_0 is Ok,
        reply.body->Call_0->Ok_0 is Immediate,
        reply.body->Call_0->Ok_0->Immediate_0.view() == value.view(),
        after.core.pending == before.core.pending,
        after.termination == before.termination,
{
    lemma_quiet(before.watchdog, clock.watchdog);
}

/// Two calls that returned different values are answered differently.
pub proof fn law_calls_are_told_apart(
    before: RunnerView,
    clock: TaskClock,
    call: CallClock,
    now: nat,
    first: JSValue,
    second: JSValue,
    after_first: RunnerView,
    after_second: RunnerView,
    first_reply: Reply,
    second_reply: Reply,
)
    requires
        is_quiet(before.watchdog, clock.watchdog),
        first.view() != second.view(),
        call_answered(
            before,
            clock,
            call,
            now,
            CallOutcome::Returned(Returned::Value(Ok(first))),
            after_first,
            first_reply.view(),
        ),
        call_answered(
            before,
            clock,
            call,
            now,
            CallOutcome::Returned(Returned::Value(Ok(second))),
            after_second,
            second_reply.view(),
        ),
    ensures
        first_reply != second_reply,
{
    law_returned_values_are_answered(
        before,
        clock,
        call,
        now,
        first,
        after_first,
        first_reply,
    );
    law_returned_values_are_answered(
        before,
        clock,
        call,
        now,
        second,
        after_second,
        second_reply,
    );
}

/// A call whose function returned a promise is parked: its caller is told an id under
/// which the promise and the clock of the call are kept.
pub proof fn law_promises_are_parked(
    before: RunnerView,
    clock: TaskClock,
    call: CallClock,
    now: nat,
    promise: u64,
    after: RunnerView,
    reply: Reply,
)
    requires
        is_quiet(before.watchdog, clock.watchdog),
        call_answered(
            before,
            clock,
            call,
            now,
            CallOutcome::Returned(Returned::Promise { promise }),
            after,
            reply.view(),
        ),
    ensures
        reply.responder == clock.responder,
        reply.body is Call,
        reply.body->Call_0 is Ok,
        reply.body->Call_0->Ok_0 is Pending,
        ({
            let id = reply.body->Call_0->Ok_0->call_id;
            after.core.pending == before.core.pending.insert(
                id,
                PendingFunctionCall {
                    promise,
                    start_time: call.start_time,
                    deadline: call.deadline,
                    timeout_ms: call.timeout_ms,
                },
            )
        }),
        after.core.next_call != before.core.next_call,
{
    lemma_quiet(before.watchdog, clock.watchdog);
}

/// A call that threw, or that could not be made, is answered with that error, and
/// never with a value.
pub proof fn law_failed_calls_raise(
    before: RunnerView,
    clock: TaskClock,
    call: CallClock,
    now: nat,
    details: JsExceptionDetails,
    err: RuntimeError,
    after: RunnerView,
    reply: Reply,
)
    requires
        is_quiet(before.watchdog, clock.watchdog),
        is_running(before.core, before.termination),
    ensures
        call_answered(
            before,
            clock,
            call,
            now,
            CallOutcome::Failed { terminated: false, exception: Some(details) },
            after,
            reply.view(),
        ) ==> reply.responder == clock.responder && reply.body is Call && reply.body->Call_0 is Err
            && reply.body->Call_0->Err_0@ == ErrorView::JavaScript(details@),
        call_answered(
            before,
            clock,
            call,
            now,
            CallOutcome::BadArguments(err),
            after,
            reply.view(),
        ) || call_answered(
            before,
            clock,
            call,
            now,
            CallOutcome::Returned(Returned::Value(Err(err))),
            after,
            reply.view(),
        ) ==> reply.responder == clock.responder && reply.body is Call && reply.body->Call_0 is Err
            && reply.body->Call_0->Err_0@ == err@,
        call_answered(
            before,
            clock,
            call,
            now,
            CallOutcome::Terminating,
            after,
            reply.view(),
        ) ==> reply.body is Call && reply.body->Call_0 is Err,
{
    lemma_quiet(before.watchdog, clock.watchdog);
}

/// A call whose watchdog went off is answered with a timeout, whatever it returned.
pub proof fn law_overrun_calls_time_out(
    before: RunnerView,
    clock: TaskClock,
    call: CallClock,
    now: nat,
    value: JSValue,
    after: RunnerView,
    reply: Reply,
)
    requires
        has_gone_off(before.watchdog, clock.watchdog),
        call_answered(
            before,
            clock,
            call,
            now,
            CallOutcome::Returned(Returned::Value(Ok(value))),
            after,
            reply.view(),
        ),
    ensures
        reply.responder == clock.responder,
        reply.body is Call,
        reply.body->Call_0 is Err,
        reply.body->Call_0->Err_0@ == ErrorView::Timeout(
            "Sync function call timed out after "@ + decimal(
                (clock.watchdog->0).duration@ / 1_000_000,
            ) + "ms"@,
        ),
        !after.termination.latched,
{
    lemma_quiet(before.watchdog, clock.watchdog);
    reveal_strlit("Sync function call");
    reveal_strlit(" timed out after ");
    reveal_strlit("Sync function call timed out after ");
    assert("Sync function call"@ + " timed out after "@ =~= "Sync function call timed out after "@);
}

/// A failure of the event loop that is no termination fails the active job with that
/// error; what is pending or drained fails nobody.
pub proof fn law_loop_failures_fail_the_active_job(
    before: RunnerView,
    poll: LoopPoll,
    now: nat,
    after: RunnerView,
    next: StepNext,
)
    requires
        is_running(before.core, before.termination),
        before.active is Some,
        is_quiet(before.watchdog, (before.active->0).common.watchdog),
        step_ended(before, None, poll, now, after, next),
    ensures
        poll is Pending ==> next == (StepNext::Proceed { drained: false }) && after == before,
        poll is Drained ==> next == (StepNext::Proceed { drained: true }) && after == before,
        poll is Failed && says_nothing_of_termination(poll->Failed_0@) ==> {
            &&& next is Restart
            &&& next->reply is Some
            &&& answers_error(
                next->reply->0,
                (before.active->0).common.responder,
                poll->Failed_0@,
            )
        },
{
    lemma_quiet(before.watchdog, (before.active->0).common.watchdog);
}

/// The error does not say that execution was terminated.
pub open spec fn says_nothing_of_termination(err: ErrorView) -> bool {
    match err {
        ErrorView::JavaScript(details) => (details.message is Some ==> !has_substring(
            details.message->0,
            "execution terminated"@,
        )) && !has_substring(details.summary, "execution terminated"@),
        ErrorView::Timeout(text) => !has_substring(text, "execution terminated"@),
        ErrorView::Internal(text) => !has_substring(text, "execution terminated"@),
        _ => false,
    }
}

/// A call that is resumed is watched up to the moment that it was due when it was parked.
pub proof fn law_resumed_calls_keep_their_deadline(
    before: RunnerView,
    now: Duration,
    call_id: u64,
    task_locals: Option<u64>,
    responder: u64,
    after: RunnerView,
    r: Handled,
)
    requires
        is_ready(before),
        before.core.pending.contains_key(call_id),
        handled(
            before,
            now,
            RuntimeCommand::ResumeFunctionCall { call_id, task_locals, responder },
            after,
            r,
        ),
    ensures
        ({
            let parked = before.core.pending[call_id];
            &&& parked.deadline is None ==> after.watchdog == before.watchdog
            &&& parked.deadline is Some ==> {
                &&& after.watchdog.armed.len() == before.watchdog.armed.len() + 1
                &&& after.watchdog.armed.drop_last() == before.watchdog.armed
                &&& !after.watchdog.armed.last().fired
                &&& now@ <= (parked.deadline->0)@ <= MAX_NANOS
                    ==> after.watchdog.armed.last().deadline == (parked.deadline->0)@
                &&& (parked.deadline->0)@ < now@ <= MAX_NANOS
                    ==> after.watchdog.armed.last().deadline == now@
            }
        }),
        forall|id: u32|
            before.core.functions.stored.contains_key(id)
                ==> #[trigger] after.core.functions.stored.contains_key(id),
{
    if before.core.pending[call_id].deadline is Some {
        assert(after.watchdog.armed.drop_last() =~= before.watchdog.armed);
    }
}

/// A binding is handed to the engine under its name with one assignment for each
/// property, in order, and with the tokens of its ops. Until the engine installed it
/// nothing is reachable that was not before.
pub proof fn law_objects_are_bound(
    before: RunnerView,
    now: Duration,
    name: String,
    properties: Vec<BoundObjectProperty>,
    responder: u64,
    after: RunnerView,
    r: Handled,
    i: int,
)
    requires
        is_running(before.core, before.termination),
        handled(
            before,
            now,
            RuntimeCommand::BindObject { name, properties, responder },
            after,
            r,
        ),
    ensures
        after == before,
        r is Perform,
        r->Perform_0 is BindObject,
        r->Perform_0->name == name,
        r->Perform_0->BindObject_responder == responder,
        r->Perform_0->assignments.view() is Array,
        (r->Perform_0->assignments.view()->Array_0).len() == properties@.len(),
        0 <= i < properties@.len() ==> {
            let told = r->Perform_0->assignments.view()->Array_0[i];
            &&& told is Object
            &&& match properties@[i] {
                BoundObjectProperty::Value { key, value } => lookup(told->Object_0, "key"@)
                    == Some(JsView::String(key@)) && lookup(told->Object_0, "value"@) == Some(
                    value.view(),
                ),
                BoundObjectProperty::Op { key, op_id, mode } => lookup(told->Object_0, "key"@)
                    == Some(JsView::String(key@)) && r->Perform_0->tokens@.contains(op_id) && (
                1 <= op_id <= 9007199254740991 ==> lookup(told->Object_0, "op_id"@) is Some
                    && lookup(told->Object_0, "op_id"@)->0 is Float && js_token(
                    Double { bits: lookup(told->Object_0, "op_id"@)->0->Float_0 },
                ) == Some(op_id)),
            }
        },
{
    let seen = property_views(properties@);
    if 0 <= i < properties@.len() {
        assert(seen[i] == properties@[i].view());
        law_assignments_tell_their_property(seen[i]);
        assert(r->Perform_0->assignments.view()->Array_0[i] == crate::binding::assignment(
            seen[i],
        ));
        if let BoundObjectProperty::Op { key, op_id, mode } = properties@[i] {
            assert(seen[i] is Op && seen[i]->Op_1 == op_id);
            law_bound_tokens_are_those_of_the_ops(seen, op_id);
        }
    }
}

/// A stream that is cancelled is handed to the engine as it is kept, and is still kept
/// until the engine is done; of one that is not there the caller is told so.
pub proof fn law_streams_are_cancelled(
    before: RunnerView,
    now: Duration,
    stream_id: u32,
    responder: u64,
    after: RunnerView,
    r: Handled,
)
    requires
        handled(before, now, RuntimeCommand::StreamCancel { stream_id, responder }, after, r),
    ensures
        after == before,
        before.core.streams.entries.contains_key(stream_id) ==> r is Perform
            && r->Perform_0 is CancelStream && r->Perform_0->CancelStream_stream_id == stream_id
            && r->Perform_0->stream == before.core.streams.entries[stream_id]
            && r->Perform_0->CancelStream_responder == responder,
        !before.core.streams.entries.contains_key(stream_id) ==> r is Reply
            && r->Reply_0.responder == responder && r->Reply_0.body is Unit
            && r->Reply_0.body->Unit_0 is Err,
{
}

/// Figures are collected for whoever asked, whatever state the runtime is in, and
/// nothing changes by it.
pub proof fn law_figures_can_always_be_had(
    before: RunnerView,
    now: Duration,
    responder: u64,
    after: RunnerView,
    r: Handled,
)
    requires
        handled(before, now, RuntimeCommand::GetStats { responder }, after, r),
    ensures
        after == before,
        r is Perform,
        r->Perform_0 is CollectStats,
        r->Perform_0->CollectStats_responder == responder,
{
}

/// With work in flight the loop parks for a millisecond, or until the active job is due
/// where that is sooner.
pub proof fn law_parking_ends_with_the_deadline(active: Option<Job>, now: nat)
    ensures
        work_wait(active, now) <= 1_000_000,
        active is None ==> work_wait(active, now) == 1_000_000,
        active is Some && (active->0).common.deadline is None ==> work_wait(active, now)
            == 1_000_000,
        active is Some && (active->0).common.deadline is Some ==> {
            let due = ((active->0).common.deadline->0)@;
            &&& due >= now + 1_000_000 ==> work_wait(active, now) == 1_000_000
            &&& now <= due < now + 1_000_000 ==> now + work_wait(active, now) == due
            &&& due < now ==> work_wait(active, now) == 0
        },
{
}

} // verus!
