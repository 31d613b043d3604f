//! The commands of the runtime thread: what each one does, and what its caller is
//! answered.
//!
//! The engine is driven from outside: a command that needs it is handed back as a
//! task, and its outcome is told afterwards. Callers are known by the number of their
//! responder.

use crate::binding::{
    all_exposed, assignment, bind_assignments, bind_result, bound_tokens, property_views,
    BindOutcome, BoundObjectProperty, PropertyView,
};
use crate::core_state::{
    apply_watchdog_result, call_finished, call_view, due_at, effective_timeout, elapsed_nanos,
    gate_opened, gate_wait, locals_synced, missing_call_text, op_registered, rejecting, span_of,
    stats_collected, timed_answer, translated, value_view, CallClock, CallOutcome, CallResultView,
    CoreView, FunctionCallResult, InspectorWait,
};
use crate::dispatcher::{
    aborted, armed_for, counted, ms_span, newest, orderly, runner, submitted, without_locals,
    DispatcherView, RunnerView, RuntimeDispatcher,
};
use crate::error::{err_view, ErrorView, JsExceptionDetails, RuntimeError, RuntimeResult};
use crate::jobs::{
    call_function_async_job, eval_async_job, eval_module_async_job, job_starts,
    resume_function_call_job, resumed_token, stream_read_job, JobBody, JobCommon, JobStage,
    TimeoutWording,
};
use crate::js_value::{lemma_view, JSValue, JsView};
use crate::loader::LoaderView;
use crate::ops::{OpToken, PythonOpMode};
use crate::stats::{ActivitySummary, HeapSnapshot, RuntimeCallKind, RuntimeStatsSnapshot};
use crate::stream::{JsStreamEntry, PyStreamRegistry};
use crate::termination::{
    TerminationController, TerminationView, Watchdog, WatchdogToken, WatchdogView,
};
use crate::time::Duration;
use crate::v8_export::missing_function_text;
use vstd::prelude::*;

verus! {

broadcast use lemma_view;

/// Commands sent from the handle to the runtime thread. Callables, task locals and
/// responders are known by number.
#[derive(Debug)]
pub enum RuntimeCommand {
    Eval { code: String, responder: u64 },
    EvalAsync {
        code: String,
        timeout_ms: Option<u64>,
        task_locals: Option<u64>,
        responder: u64,
    },
    EvalModule { specifier: String, responder: u64 },
    EvalModuleAsync {
        specifier: String,
        timeout_ms: Option<u64>,
        task_locals: Option<u64>,
        responder: u64,
    },
    RegisterPythonOp { name: String, mode: PythonOpMode, handler: u64, responder: u64 },
    SetPythonOpExposure { op_id: OpToken, exposed: bool, responder: u64 },
    SetModuleResolver { handler: u64, responder: u64 },
    SetModuleLoader { handler: u64, responder: u64 },
    AddStaticModule { name: String, source: String, responder: u64 },
    BindObject { name: String, properties: Vec<BoundObjectProperty>, responder: u64 },
    CallFunctionSync {
        fn_id: u32,
        args: Vec<JSValue>,
        timeout_ms: Option<u64>,
        responder: u64,
    },
    CallFunctionAsync {
        fn_id: u32,
        args: Vec<JSValue>,
        timeout_ms: Option<u64>,
        task_locals: Option<u64>,
        responder: u64,
    },
    ResumeFunctionCall { call_id: u64, task_locals: Option<u64>, responder: u64 },
    ReleaseFunction { fn_id: u32, responder: u64 },
    StreamRead { stream_id: u32, responder: u64 },
    StreamRelease { stream_id: u32, responder: u64 },
    StreamCancel { stream_id: u32, responder: u64 },
    GetStats { responder: u64 },
    Terminate { responder: u64 },
    Shutdown { responder: u64 },
}

/// Who is answered.
pub open spec fn responder_of(cmd: RuntimeCommand) -> u64 {
    match cmd {
        RuntimeCommand::Eval { responder, .. } => responder,
        RuntimeCommand::EvalAsync { responder, .. } => responder,
        RuntimeCommand::EvalModule { responder, .. } => responder,
        RuntimeCommand::EvalModuleAsync { responder, .. } => responder,
        RuntimeCommand::RegisterPythonOp { responder, .. } => responder,
        RuntimeCommand::SetPythonOpExposure { responder, .. } => responder,
        RuntimeCommand::SetModuleResolver { responder, .. } => responder,
        RuntimeCommand::SetModuleLoader { responder, .. } => responder,
        RuntimeCommand::AddStaticModule { responder, .. } => responder,
        RuntimeCommand::BindObject { responder, .. } => responder,
        RuntimeCommand::CallFunctionSync { responder, .. } => responder,
        RuntimeCommand::CallFunctionAsync { responder, .. } => responder,
        RuntimeCommand::ResumeFunctionCall { responder, .. } => responder,
        RuntimeCommand::ReleaseFunction { responder, .. } => responder,
        RuntimeCommand::StreamRead { responder, .. } => responder,
        RuntimeCommand::StreamRelease { responder, .. } => responder,
        RuntimeCommand::StreamCancel { responder, .. } => responder,
        RuntimeCommand::GetStats { responder } => responder,
        RuntimeCommand::Terminate { responder } => responder,
        RuntimeCommand::Shutdown { responder } => responder,
    }
}

/// Commands that run code: they wait for the inspector before they start.
pub open spec fn runs_code(cmd: RuntimeCommand) -> bool {
    match cmd {
        RuntimeCommand::Eval { .. } => true,
        RuntimeCommand::EvalAsync { .. } => true,
        RuntimeCommand::EvalModule { .. } => true,
        RuntimeCommand::EvalModuleAsync { .. } => true,
        RuntimeCommand::CallFunctionSync { .. } => true,
        RuntimeCommand::CallFunctionAsync { .. } => true,
        RuntimeCommand::ResumeFunctionCall { .. } => true,
        _ => false,
    }
}

/// Commands that are carried out even while the runtime is terminating.
pub open spec fn always_allowed(cmd: RuntimeCommand) -> bool {
    match cmd {
        RuntimeCommand::StreamRelease { .. } => true,
        RuntimeCommand::StreamCancel { .. } => true,
        RuntimeCommand::GetStats { .. } => true,
        RuntimeCommand::Terminate { .. } => true,
        RuntimeCommand::Shutdown { .. } => true,
        _ => false,
    }
}

/// What a caller is answered.
#[derive(Debug)]
pub enum ReplyBody {
    Value(RuntimeResult<JSValue>),
    Call(RuntimeResult<FunctionCallResult>),
    Token(RuntimeResult<OpToken>),
    Flag(RuntimeResult<bool>),
    Unit(RuntimeResult<()>),
    Stats(RuntimeResult<RuntimeStatsSnapshot>),
    /// The runtime was shut down.
    Closed,
}

/// An answer and who it is for.
#[derive(Debug)]
pub struct Reply {
    pub responder: u64,
    pub body: ReplyBody,
}

#[verifier::ext_equal]
pub enum BodyView {
    Value(Result<JsView, ErrorView>),
    Call(Result<CallResultView, ErrorView>),
    Token(Result<u64, ErrorView>),
    Flag(Result<bool, ErrorView>),
    Unit(Result<(), ErrorView>),
    Stats(Result<RuntimeStatsSnapshot, ErrorView>),
    Closed,
}

#[verifier::ext_equal]
pub struct ReplyView {
    pub responder: u64,
    pub body: BodyView,
}

impl ReplyBody {
    pub open spec fn view(self) -> BodyView {
        match self {
            ReplyBody::Value(r) => BodyView::Value(value_view(r)),
            ReplyBody::Call(r) => BodyView::Call(call_view(r)),
            ReplyBody::Token(r) => BodyView::Token(err_view(r)),
            ReplyBody::Flag(r) => BodyView::Flag(err_view(r)),
            ReplyBody::Unit(r) => BodyView::Unit(err_view(r)),
            ReplyBody::Stats(r) => BodyView::Stats(err_view(r)),
            ReplyBody::Closed => BodyView::Closed,
        }
    }
}

impl Reply {
    pub open spec fn view(self) -> ReplyView {
        ReplyView { responder: self.responder, body: self.body.view() }
    }
}

pub open spec fn reply_views(replies: Seq<Reply>) -> Seq<ReplyView> {
    replies.map_values(|reply: Reply| reply.view())
}

/// How a command is refused.
pub open spec fn refusal(cmd: RuntimeCommand, err: ErrorView) -> ReplyView {
    ReplyView {
        responder: responder_of(cmd),
        body: match cmd {
            RuntimeCommand::RegisterPythonOp { .. } => BodyView::Token(Err(err)),
            RuntimeCommand::SetPythonOpExposure { .. } => BodyView::Flag(Err(err)),
            RuntimeCommand::SetModuleResolver { .. } => BodyView::Unit(Err(err)),
            RuntimeCommand::SetModuleLoader { .. } => BodyView::Unit(Err(err)),
            RuntimeCommand::AddStaticModule { .. } => BodyView::Unit(Err(err)),
            RuntimeCommand::BindObject { .. } => BodyView::Unit(Err(err)),
            RuntimeCommand::ReleaseFunction { .. } => BodyView::Unit(Err(err)),
            RuntimeCommand::CallFunctionSync { .. } => BodyView::Call(Err(err)),
            RuntimeCommand::StreamRelease { .. } => BodyView::Unit(Err(err)),
            RuntimeCommand::StreamCancel { .. } => BodyView::Unit(Err(err)),
            RuntimeCommand::GetStats { .. } => BodyView::Stats(Err(err)),
            RuntimeCommand::Terminate { .. } => BodyView::Unit(Err(err)),
            RuntimeCommand::Shutdown { .. } => BodyView::Closed,
            _ => BodyView::Value(Err(err)),
        },
    }
}

/// Who awaits a synchronous entry point, its watchdog and when it began.
#[derive(Clone, Copy, Debug)]
pub struct TaskClock {
    pub responder: u64,
    pub watchdog: Option<WatchdogToken>,
    pub start: Duration,
}

/// Work for the engine; what came of it is told with the function named.
#[derive(Debug)]
pub enum EngineTask {
    /// [`RuntimeDispatcher::finish_eval`].
    Eval { code: String, clock: TaskClock },
    /// [`RuntimeDispatcher::finish_eval_module`].
    EvalModule { specifier: String, clock: TaskClock },
    /// [`RuntimeDispatcher::finish_call_function`].
    CallFunction { fn_id: u32, args: Vec<JSValue>, clock: TaskClock, call: CallClock },
    /// [`RuntimeDispatcher::finish_bind_object`].
    BindObject { name: String, assignments: JSValue, tokens: Vec<OpToken>, responder: u64 },
    /// [`RuntimeDispatcher::finish_cancel_stream`].
    CancelStream { stream_id: u32, stream: JsStreamEntry, responder: u64 },
    /// [`RuntimeDispatcher::finish_stats`].
    CollectStats { responder: u64 },
}

/// What handling a command amounts to.
#[derive(Debug)]
pub enum Handled {
    /// The caller is answered.
    Reply(Reply),
    /// A job was submitted; it will be answered later.
    Queued,
    /// Wait for the inspector, then call [`RuntimeDispatcher::run_admitted`].
    Wait { wait: InspectorWait, command: RuntimeCommand },
    /// The engine has work to do.
    Perform(EngineTask),
    /// The callers are answered and the loop ends.
    Exit(Vec<Reply>),
}

/// What came of a synchronous script or module.
#[derive(Debug)]
pub enum EntryOutcome {
    /// The script threw.
    Threw(JsExceptionDetails),
    /// The event loop or the evaluation failed.
    EngineFailed(RuntimeError),
    /// It ran to its end, and this is the converted value, or it could not be begun.
    Finished(RuntimeResult<JSValue>),
}

/// A synchronous entry point began: its watchdog is armed and nothing else changed.
pub open spec fn task_begun(
    before: RunnerView,
    now: Duration,
    span: Option<nat>,
    reason: Seq<char>,
    responder: u64,
    clock: TaskClock,
    after: RunnerView,
) -> bool {
    &&& clock.responder == responder
    &&& clock.start == now
    &&& armed_for(before.watchdog, now@, span, reason, clock.watchdog, after.watchdog)
    &&& after == (RunnerView { watchdog: after.watchdog, ..before })
}

/// A job with this work was submitted, its watchdog armed for its whole lifetime.
pub open spec fn job_submitted(
    before: RunnerView,
    now: Duration,
    kind: RuntimeCallKind,
    wording: TimeoutWording,
    timeout_ms: Option<u64>,
    reason: Seq<char>,
    task_locals: Option<u64>,
    responder: u64,
    body: JobBody,
    after: RunnerView,
) -> bool {
    let job = newest(before, after);
    &&& job_starts(
        job,
        kind,
        wording,
        timeout_ms,
        task_locals,
        responder,
        job.common.watchdog,
        now,
    )
    &&& job.body == body
    &&& armed_for(
        before.watchdog,
        now@,
        ms_span(timeout_ms),
        reason,
        job.common.watchdog,
        after.watchdog,
    )
    &&& after == submitted(RunnerView { watchdog: after.watchdog, ..before }, job)
}

/// A synchronous call of a function that is not known was answered.
pub open spec fn call_refused(
    before: RunnerView,
    now: nat,
    fn_id: u32,
    timeout_ms: Option<u64>,
    after: RunnerView,
    answer: Result<CallResultView, ErrorView>,
) -> bool {
    exists|token: Option<WatchdogToken>, armed: WatchdogView|
        {
            &&& #[trigger] armed_for(
                before.watchdog,
                now,
                ms_span(timeout_ms),
                "Synchronous function call timed out"@,
                token,
                armed,
            )
            &&& (answer, after.watchdog, after.termination) == timed_answer(
                armed,
                before.termination,
                Err::<CallResultView, _>(ErrorView::Internal(missing_function_text(fn_id))),
                token,
                "Sync function call"@,
            )
            &&& after == (RunnerView {
                core: counted(before.core, RuntimeCallKind::CallFunctionSync, now, now),
                watchdog: after.watchdog,
                termination: after.termination,
                ..before
            })
        }
}

/// A parked call was submitted as a job on its original clock.
pub open spec fn call_resumed(
    before: RunnerView,
    now: nat,
    call_id: u64,
    task_locals: Option<u64>,
    responder: u64,
    after: RunnerView,
) -> bool {
    let pending = before.core.pending[call_id];
    let job = newest(before, after);
    &&& job.stage == JobStage::NotStarted
    &&& job.body == (JobBody::Resume { promise: pending.promise })
    &&& job.common == (JobCommon {
        responder,
        timeout_ms: pending.timeout_ms,
        task_locals,
        start_time: pending.start_time,
        deadline: pending.deadline,
        watchdog: job.common.watchdog,
        kind: RuntimeCallKind::CallFunctionAsync,
        wording: TimeoutWording::CallFunction,
        terminated_by_deadline: false,
    })
    &&& resumed_token(pending, before.watchdog, job.common.watchdog, now)
    &&& after.watchdog == match pending.deadline {
        Some(deadline) => before.watchdog.armed_at(
            now,
            elapsed_nanos(now, deadline@),
            "Asynchronous function call timed out"@,
        ),
        None => before.watchdog,
    }
    &&& after == submitted(
        RunnerView {
            core: CoreView { pending: before.core.pending.remove(call_id), ..before.core },
            watchdog: after.watchdog,
            ..before
        },
        job,
    )
}

/// What a command that runs code amounts to once it may start.
pub open spec fn admitted(
    before: RunnerView,
    now: Duration,
    cmd: RuntimeCommand,
    after: RunnerView,
    r: Handled,
) -> bool {
    match cmd {
        RuntimeCommand::Eval { code, responder } => match r {
            Handled::Perform(EngineTask::Eval { code: script, clock }) => script == code
                && task_begun(
                before,
                now,
                before.core.execution_timeout,
                "Synchronous evaluation timed out"@,
                responder,
                clock,
                after,
            ),
            _ => false,
        },
        RuntimeCommand::EvalModule { specifier, responder } => match r {
            Handled::Perform(EngineTask::EvalModule { specifier: module, clock }) => module
                == specifier && task_begun(
                before,
                now,
                before.core.execution_timeout,
                "Synchronous module evaluation timed out"@,
                responder,
                clock,
                after,
            ),
            _ => false,
        },
        RuntimeCommand::CallFunctionSync { fn_id, args, timeout_ms, responder } => {
            let timeout = effective_timeout(before.core, timeout_ms);
            match r {
                Handled::Perform(EngineTask::CallFunction { fn_id: f, args: a, clock, call }) => {
                    &&& before.core.functions.stored.contains_key(fn_id)
                    &&& f == fn_id
                    &&& a == args
                    &&& task_begun(
                        before,
                        now,
                        ms_span(timeout),
                        "Synchronous function call timed out"@,
                        responder,
                        clock,
                        after,
                    )
                    &&& call.start_time == now
                    &&& call.timeout_ms == timeout
                    &&& span_of(call.deadline) == due_at(now@, timeout)
                },
                Handled::Reply(reply) => {
                    &&& !before.core.functions.stored.contains_key(fn_id)
                    &&& reply.responder == responder
                    &&& reply.body.view() is Call
                    &&& call_refused(
                        before,
                        now@,
                        fn_id,
                        timeout,
                        after,
                        reply.body.view()->Call_0,
                    )
                },
                _ => false,
            }
        },
        RuntimeCommand::EvalAsync { code, timeout_ms, task_locals, responder } => r is Queued
            && job_submitted(
            before,
            now,
            RuntimeCallKind::EvalAsync,
            TimeoutWording::Eval,
            effective_timeout(before.core, timeout_ms),
            "Asynchronous evaluation timed out"@,
            task_locals,
            responder,
            JobBody::Eval { code },
            after,
        ),
        RuntimeCommand::EvalModuleAsync { specifier, timeout_ms, task_locals, responder } => r
            is Queued && job_submitted(
            before,
            now,
            RuntimeCallKind::EvalModuleAsync,
            TimeoutWording::EvalModule,
            effective_timeout(before.core, timeout_ms),
            "Asynchronous module evaluation timed out"@,
            task_locals,
            responder,
            JobBody::EvalModule { specifier },
            after,
        ),
        RuntimeCommand::CallFunctionAsync { fn_id, args, timeout_ms, task_locals, responder } => r
            is Queued && job_submitted(
            before,
            now,
            RuntimeCallKind::CallFunctionAsync,
            TimeoutWording::CallFunction,
            effective_timeout(before.core, timeout_ms),
            "Asynchronous function call timed out"@,
            task_locals,
            responder,
            JobBody::CallFunction { fn_id, args },
            after,
        ),
        RuntimeCommand::ResumeFunctionCall { call_id, task_locals, responder } => match r {
            Handled::Queued => before.core.pending.contains_key(call_id) && call_resumed(
                before,
                now@,
                call_id,
                task_locals,
                responder,
                after,
            ),
            Handled::Reply(reply) => {
                &&& !before.core.pending.contains_key(call_id)
                &&& reply.view() == (ReplyView {
                    responder,
                    body: BodyView::Value(Err(ErrorView::Internal(missing_call_text(call_id)))),
                })
                &&& after == before
            },
            _ => false,
        },
        _ => false,
    }
}

/// What a command that needs a living runtime, but runs no code, amounts to.
pub open spec fn carried_out(
    before: RunnerView,
    now: Duration,
    cmd: RuntimeCommand,
    after: RunnerView,
    r: Handled,
) -> bool {
    match cmd {
        RuntimeCommand::StreamRead { stream_id, responder } => {
            let job = newest(before, after);
            &&& r is Queued
            &&& job_starts(
                job,
                RuntimeCallKind::EvalAsync,
                TimeoutWording::StreamRead,
                None,
                None,
                responder,
                None,
                now,
            )
            &&& job.body == (JobBody::StreamRead { stream_id })
            &&& after == submitted(before, job)
        },
        RuntimeCommand::RegisterPythonOp { name, mode, handler, responder } => match r {
            Handled::Reply(reply) => {
                &&& reply.responder == responder
                &&& reply.body.view() is Token
                &&& op_registered(
                    before.core,
                    name@,
                    mode,
                    handler,
                    after.core,
                    reply.body.view()->Token_0,
                )
                &&& after == (RunnerView { core: after.core, ..before })
            },
            _ => false,
        },
        RuntimeCommand::SetPythonOpExposure { op_id, exposed, responder } => {
            &&& r is Reply
            &&& r->Reply_0.view() == (ReplyView {
                responder,
                body: BodyView::Flag(Ok(before.core.ops.handlers.contains_key(op_id))),
            })
            &&& after == (RunnerView {
                core: CoreView {
                    ops: if exposed {
                        before.core.ops.exposing(op_id)
                    } else {
                        before.core.ops.revoked(op_id)
                    },
                    ..before.core
                },
                ..before
            })
        },
        RuntimeCommand::SetModuleResolver { handler, responder } => {
            &&& r is Reply
            &&& r->Reply_0.view() == (ReplyView { responder, body: BodyView::Unit(Ok(())) })
            &&& after == (RunnerView {
                core: locals_synced(
                    CoreView {
                        loader: LoaderView { resolver: Some(handler), ..before.core.loader },
                        ..before.core
                    },
                ),
                ..before
            })
        },
        RuntimeCommand::SetModuleLoader { handler, responder } => {
            &&& r is Reply
            &&& r->Reply_0.view() == (ReplyView { responder, body: BodyView::Unit(Ok(())) })
            &&& after == (RunnerView {
                core: locals_synced(
                    CoreView {
                        loader: LoaderView { loader: Some(handler), ..before.core.loader },
                        ..before.core
                    },
                ),
                ..before
            })
        },
        RuntimeCommand::AddStaticModule { name, source, responder } => {
            &&& r is Reply
            &&& r->Reply_0.view() == (ReplyView { responder, body: BodyView::Unit(Ok(())) })
            &&& after == (RunnerView {
                core: CoreView {
                    loader: LoaderView {
                        modules: before.core.loader.modules.insert(name@, source@),
                        ..before.core.loader
                    },
                    ..before.core
                },
                ..before
            })
        },
        RuntimeCommand::BindObject { name, properties, responder } => match r {
            Handled::Perform(
                EngineTask::BindObject { name: n, assignments, tokens, responder: caller },
            ) => {
                &&& n == name
                &&& caller == responder
                &&& assignments.view() == JsView::Array(
                    property_views(properties@).map_values(|p: PropertyView| assignment(p)),
                )
                &&& tokens@ == bound_tokens(property_views(properties@))
                &&& after == before
            },
            _ => false,
        },
        RuntimeCommand::ReleaseFunction { fn_id, responder } => {
            &&& r is Reply
            &&& r->Reply_0.view() == (ReplyView { responder, body: BodyView::Unit(Ok(())) })
            &&& after == (RunnerView {
                core: CoreView {
                    functions: before.core.functions.without(fn_id),
                    ..before.core
                },
                ..before
            })
        },
        _ => false,
    }
}

/// What a command that is always allowed amounts to.
pub open spec fn always_done(
    before: RunnerView,
    cmd: RuntimeCommand,
    after: RunnerView,
    r: Handled,
) -> bool {
    match cmd {
        RuntimeCommand::StreamRelease { stream_id, responder } => {
            &&& r is Reply
            &&& r->Reply_0.view() == (ReplyView {
                responder,
                body: BodyView::Unit(before.core.streams.release_result(stream_id)),
            })
            &&& after == (RunnerView {
                core: CoreView {
                    streams: before.core.streams.released(stream_id),
                    ..before.core
                },
                ..before
            })
        },
        RuntimeCommand::StreamCancel { stream_id, responder } => {
            &&& if before.core.streams.entries.contains_key(stream_id) {
                r == Handled::Perform(
                    EngineTask::CancelStream {
                        stream_id,
                        stream: before.core.streams.entries[stream_id],
                        responder,
                    },
                )
            } else {
                &&& r is Reply
                &&& r->Reply_0.view() == (ReplyView {
                    responder,
                    body: BodyView::Unit(before.core.streams.release_result(stream_id)),
                })
            }
            &&& after == before
        },
        RuntimeCommand::GetStats { responder } => r == Handled::Perform(
            EngineTask::CollectStats { responder },
        ) && after == before,
        RuntimeCommand::Terminate { responder } => {
            &&& r is Exit
            &&& (after, reply_views(r->Exit_0@)) == (
                aborted(before).0,
                aborted(before).1.push(
                    ReplyView { responder, body: BodyView::Unit(Ok(())) },
                ),
            )
        },
        RuntimeCommand::Shutdown { responder } => {
            &&& r is Exit
            &&& reply_views(r->Exit_0@) == seq![
                ReplyView { responder, body: BodyView::Closed },
            ]
            &&& after == (RunnerView {
                core: without_locals(
                    CoreView { functions: before.core.functions.cleared(), ..before.core },
                ),
                ..before
            })
        },
        _ => false,
    }
}

/// What handling a command amounts to. A runtime that is terminating refuses all but
/// what is always allowed; code waits for the inspector.
pub open spec fn handled(
    before: RunnerView,
    now: Duration,
    cmd: RuntimeCommand,
    after: RunnerView,
    r: Handled,
) -> bool {
    if always_allowed(cmd) {
        always_done(before, cmd, after, r)
    } else if rejecting(before.core, before.termination) {
        &&& r is Reply
        &&& r->Reply_0.view() == refusal(cmd, before.termination.error())
        &&& after == before
    } else if runs_code(cmd) {
        let passed = RunnerView {
            core: CoreView { inspector: gate_opened(before.core.inspector), ..before.core },
            ..before
        };
        if gate_wait(before.core.inspector) == InspectorWait::Nothing {
            admitted(passed, now, cmd, after, r)
        } else {
            &&& r == (Handled::Wait { wait: gate_wait(before.core.inspector), command: cmd })
            &&& after == passed
        }
    } else {
        carried_out(before, now, cmd, after, r)
    }
}

/// The state and the answer once a script or module that began with `clock` ended.
pub open spec fn entry_finished(
    before: RunnerView,
    clock: TaskClock,
    kind: RuntimeCallKind,
    context: Seq<char>,
    now: nat,
    outcome: EntryOutcome,
) -> (RunnerView, ReplyView) {
    let (core, termination, result) = match outcome {
        EntryOutcome::Threw(details) => {
            let (c, t, e) = translated(
                before.core,
                before.termination,
                ErrorView::JavaScript(details@),
            );
            (c, t, Err(e))
        },
        EntryOutcome::EngineFailed(err) => {
            let (c, t, e) = translated(before.core, before.termination, err@);
            (c, t, Err(e))
        },
        EntryOutcome::Finished(value) => (before.core, before.termination, value_view(value)),
    };
    let (answer, watchdog, after) = timed_answer(
        before.watchdog,
        termination,
        result,
        clock.watchdog,
        context,
    );
    (
        RunnerView {
            core: counted(core, kind, clock.start@, now),
            termination: after,
            watchdog,
            ..before
        },
        ReplyView { responder: clock.responder, body: BodyView::Value(answer) },
    )
}

/// The state and the answer once a synchronous call that began with `clock` ended.
pub open spec fn call_answered(
    before: RunnerView,
    clock: TaskClock,
    call: CallClock,
    now: nat,
    outcome: CallOutcome,
    after: RunnerView,
    reply: ReplyView,
) -> bool {
    exists|core: CoreView, termination: TerminationView, result: Result<CallResultView, ErrorView>|
        {
            &&& #[trigger] call_finished(
                before.core,
                before.termination,
                call,
                outcome,
                core,
                termination,
                result,
            )
            &&& reply.responder == clock.responder
            &&& reply.body is Call
            &&& (reply.body->Call_0, after.watchdog, after.termination) == timed_answer(
                before.watchdog,
                termination,
                result,
                clock.watchdog,
                "Sync function call"@,
            )
            &&& after == (RunnerView {
                core: counted(core, RuntimeCallKind::CallFunctionSync, clock.start@, now),
                watchdog: after.watchdog,
                termination: after.termination,
                ..before
            })
        }
}

fn value_reply(responder: u64, result: RuntimeResult<JSValue>) -> (reply: Reply)
    ensures
        reply.view() == (ReplyView { responder, body: BodyView::Value(value_view(result)) }),
{
    Reply { responder, body: ReplyBody::Value(result) }
}

fn done_reply(responder: u64) -> (reply: Reply)
    ensures
        reply.view() == (ReplyView { responder, body: BodyView::Unit(Ok(())) }),
{
    Reply { responder, body: ReplyBody::Unit(Ok(())) }
}

/// Refuses a command.
fn refuse(cmd: &RuntimeCommand, err: RuntimeError) -> (reply: Reply)
    ensures
        reply.view() == refusal(*cmd, err@),
{
    match cmd {
        RuntimeCommand::Eval { responder, .. }
        | RuntimeCommand::EvalAsync { responder, .. }
        | RuntimeCommand::EvalModule { responder, .. }
        | RuntimeCommand::EvalModuleAsync { responder, .. }
        | RuntimeCommand::CallFunctionAsync { responder, .. }
        | RuntimeCommand::ResumeFunctionCall { responder, .. }
        | RuntimeCommand::StreamRead { responder, .. } => {
            Reply { responder: *responder, body: ReplyBody::Value(Err(err)) }
        },
        RuntimeCommand::RegisterPythonOp { responder, .. } => {
            Reply { responder: *responder, body: ReplyBody::Token(Err(err)) }
        },
        RuntimeCommand::SetPythonOpExposure { responder, .. } => {
            Reply { responder: *responder, body: ReplyBody::Flag(Err(err)) }
        },
        RuntimeCommand::CallFunctionSync { responder, .. } => {
            Reply { responder: *responder, body: ReplyBody::Call(Err(err)) }
        },
        RuntimeCommand::GetStats { responder } => {
            Reply { responder: *responder, body: ReplyBody::Stats(Err(err)) }
        },
        RuntimeCommand::Shutdown { responder } => {
            Reply { responder: *responder, body: ReplyBody::Closed }
        },
        RuntimeCommand::SetModuleResolver { responder, .. }
        | RuntimeCommand::SetModuleLoader { responder, .. }
        | RuntimeCommand::AddStaticModule { responder, .. }
        | RuntimeCommand::BindObject { responder, .. }
        | RuntimeCommand::ReleaseFunction { responder, .. }
        | RuntimeCommand::StreamRelease { responder, .. }
        | RuntimeCommand::StreamCancel { responder, .. }
        | RuntimeCommand::Terminate { responder } => {
            Reply { responder: *responder, body: ReplyBody::Unit(Err(err)) }
        },
    }
}

/// Whether a command runs code.
fn is_code(cmd: &RuntimeCommand) -> (yes: bool)
    ensures
        yes == runs_code(*cmd),
{
    matches!(
        cmd,
        RuntimeCommand::Eval { .. } | RuntimeCommand::EvalAsync { .. }
            | RuntimeCommand::EvalModule { .. } | RuntimeCommand::EvalModuleAsync { .. }
            | RuntimeCommand::CallFunctionSync { .. } | RuntimeCommand::CallFunctionAsync { .. }
            | RuntimeCommand::ResumeFunctionCall { .. }
    )
}

/// Whether a command is carried out even while the runtime is terminating.
fn is_always_allowed(cmd: &RuntimeCommand) -> (yes: bool)
    ensures
        yes == always_allowed(*cmd),
{
    matches!(
        cmd,
        RuntimeCommand::StreamRelease { .. } | RuntimeCommand::StreamCancel { .. }
            | RuntimeCommand::GetStats { .. } | RuntimeCommand::Terminate { .. }
            | RuntimeCommand::Shutdown { .. }
    )
}

impl RuntimeDispatcher {
    /// Handles a command.
    pub fn handle_command(
        &mut self,
        termination: &mut TerminationController,
        watchdog: &mut Watchdog,
        now: Duration,
        cmd: RuntimeCommand,
    ) -> (r: Handled)
        ensures
            handled(
                runner(*old(self), *old(termination), *old(watchdog)),
                now,
                cmd,
                runner(*final(self), *final(termination), *final(watchdog)),
                r,
            ),
    {
        if is_always_allowed(&cmd) {
            return self.run_always(termination, watchdog, cmd);
        }
        if is_code(&cmd) {
            match self.core.admission(termination) {
                Err(err) => Handled::Reply(refuse(&cmd, err)),
                Ok(InspectorWait::Nothing) => self.run_admitted(termination, watchdog, now, cmd),
                Ok(wait) => Handled::Wait { wait, command: cmd },
            }
        } else if self.core.should_reject_new_work(termination) {
            Handled::Reply(refuse(&cmd, termination.terminated_error()))
        } else {
            self.run_living(now, cmd)
        }
    }

    /// Carries out a command that runs code, once it may start.
    pub fn run_admitted(
        &mut self,
        termination: &mut TerminationController,
        watchdog: &mut Watchdog,
        now: Duration,
        cmd: RuntimeCommand,
    ) -> (r: Handled)
        requires
            runs_code(cmd),
        ensures
            admitted(
                runner(*old(self), *old(termination), *old(watchdog)),
                now,
                cmd,
                runner(*final(self), *final(termination), *final(watchdog)),
                r,
            ),
    {
        match cmd {
            RuntimeCommand::Eval { code, responder } => {
                let token: Option<WatchdogToken> = self.core.arm_execution_watchdog(
                    watchdog,
                    now,
                    "Synchronous evaluation timed out",
                );
                let clock = TaskClock { responder, watchdog: token, start: now };
                Handled::Perform(EngineTask::Eval { code, clock })
            },
            RuntimeCommand::EvalModule { specifier, responder } => {
                let token: Option<WatchdogToken> = self.core.arm_execution_watchdog(
                    watchdog,
                    now,
                    "Synchronous module evaluation timed out",
                );
                let clock = TaskClock { responder, watchdog: token, start: now };
                Handled::Perform(EngineTask::EvalModule { specifier, clock })
            },
            RuntimeCommand::CallFunctionSync { fn_id, args, timeout_ms, responder } => {
                self.begin_function_call(
                    termination,
                    watchdog,
                    now,
                    fn_id,
                    args,
                    timeout_ms,
                    responder,
                )
            },
            RuntimeCommand::EvalAsync { code, timeout_ms, task_locals, responder } => {
                let timeout: Option<u64> = self.core.effective_timeout_ms(timeout_ms);
                let token: Option<WatchdogToken> = self.core.arm_watchdog(
                    watchdog,
                    now,
                    timeout,
                    "Asynchronous evaluation timed out",
                );
                self.submit_job(
                    eval_async_job(code, timeout, task_locals, responder, token, now),
                );
                Handled::Queued
            },
            RuntimeCommand::EvalModuleAsync { specifier, timeout_ms, task_locals, responder } => {
                let timeout: Option<u64> = self.core.effective_timeout_ms(timeout_ms);
                let token: Option<WatchdogToken> = self.core.arm_watchdog(
                    watchdog,
                    now,
                    timeout,
                    "Asynchronous module evaluation timed out",
                );
                self.submit_job(
                    eval_module_async_job(specifier, timeout, task_locals, responder, token, now),
                );
                Handled::Queued
            },
            RuntimeCommand::CallFunctionAsync {
                fn_id,
                args,
                timeout_ms,
                task_locals,
                responder,
            } => {
                let timeout: Option<u64> = self.core.effective_timeout_ms(timeout_ms);
                let token: Option<WatchdogToken> = self.core.arm_watchdog(
                    watchdog,
                    now,
                    timeout,
                    "Asynchronous function call timed out",
                );
                self.submit_job(
                    call_function_async_job(
                        fn_id,
                        args,
                        timeout,
                        task_locals,
                        responder,
                        token,
                        now,
                    ),
                );
                Handled::Queued
            },
            RuntimeCommand::ResumeFunctionCall { call_id, task_locals, responder } => {
                let ghost before = self.core@;
                match self.core.take_pending_call(call_id) {
                    Ok(pending) => {
                        self.submit_job(
                            resume_function_call_job(
                                pending,
                                task_locals,
                                responder,
                                watchdog,
                                now,
                            ),
                        );
                        Handled::Queued
                    },
                    Err(err) => {
                        assert(before.pending.remove(call_id) =~= before.pending);
                        Handled::Reply(value_reply(responder, Err(err)))
                    },
                }
            },
            _ => Handled::Queued,
        }
    }

    /// Begins a synchronous call. Its watchdog is armed on the effective timeout, so
    /// a timeout of the call works without a runtime-wide one.
    fn begin_function_call(
        &mut self,
        termination: &mut TerminationController,
        watchdog: &mut Watchdog,
        now: Duration,
        fn_id: u32,
        args: Vec<JSValue>,
        timeout_ms: Option<u64>,
        responder: u64,
    ) -> (r: Handled)
        ensures
            admitted(
                runner(*old(self), *old(termination), *old(watchdog)),
                now,
                RuntimeCommand::CallFunctionSync { fn_id, args, timeout_ms, responder },
                runner(*final(self), *final(termination), *final(watchdog)),
                r,
            ),
    {
        let timeout: Option<u64> = self.core.effective_timeout_ms(timeout_ms);
        let token: Option<WatchdogToken> = self.core.arm_watchdog(
            watchdog,
            now,
            timeout,
            "Synchronous function call timed out",
        );
        let ghost armed = watchdog@;
        match self.core.begin_call(fn_id, timeout_ms, now) {
            Ok(call) => {
                let clock = TaskClock { responder, watchdog: token, start: now };
                Handled::Perform(EngineTask::CallFunction { fn_id, args, clock, call })
            },
            Err(err) => {
                self.core.record_call(RuntimeCallKind::CallFunctionSync, now, now);
                let answer: RuntimeResult<FunctionCallResult> = apply_watchdog_result(
                    watchdog,
                    termination,
                    Err(err),
                    token,
                    "Sync function call",
                );
                proof {
                    let before = runner(*old(self), *old(termination), *old(watchdog));
                    let after = runner(*self, *termination, *watchdog);
                    assert(after == (RunnerView {
                        core: counted(before.core, RuntimeCallKind::CallFunctionSync, now@, now@),
                        watchdog: after.watchdog,
                        termination: after.termination,
                        ..before
                    }));
                    assert(armed_for(
                        before.watchdog,
                        now@,
                        ms_span(timeout),
                        "Synchronous function call timed out"@,
                        token,
                        armed,
                    ));
                }
                Handled::Reply(Reply { responder, body: ReplyBody::Call(answer) })
            },
        }
    }

    /// Carries out a command that needs a living runtime but runs no code.
    fn run_living(&mut self, now: Duration, cmd: RuntimeCommand) -> (r: Handled)
        requires
            !runs_code(cmd),
            !always_allowed(cmd),
        ensures
            forall|t: TerminationController, w: Watchdog| #[trigger]
                carried_out(
                    runner(*old(self), t, w),
                    now,
                    cmd,
                    runner(*final(self), t, w),
                    r,
                ),
    {
        match cmd {
            RuntimeCommand::StreamRead { stream_id, responder } => {
                self.submit_job(stream_read_job(stream_id, responder, now));
                Handled::Queued
            },
            RuntimeCommand::RegisterPythonOp { name, mode, handler, responder } => {
                let result: RuntimeResult<OpToken> = self.core.register_python_op(
                    &name,
                    mode,
                    handler,
                );
                Handled::Reply(Reply { responder, body: ReplyBody::Token(result) })
            },
            RuntimeCommand::SetPythonOpExposure { op_id, exposed, responder } => {
                let known: bool = self.core.set_python_op_exposure(op_id, exposed);
                Handled::Reply(Reply { responder, body: ReplyBody::Flag(Ok(known)) })
            },
            RuntimeCommand::SetModuleResolver { handler, responder } => {
                self.core.set_module_resolver(handler);
                Handled::Reply(done_reply(responder))
            },
            RuntimeCommand::SetModuleLoader { handler, responder } => {
                self.core.set_module_loader(handler);
                Handled::Reply(done_reply(responder))
            },
            RuntimeCommand::AddStaticModule { name, source, responder } => {
                self.core.add_static_module(name, source);
                Handled::Reply(done_reply(responder))
            },
            RuntimeCommand::BindObject { name, properties, responder } => {
                let (assignments, tokens): (JSValue, Vec<OpToken>) = bind_assignments(properties);
                Handled::Perform(EngineTask::BindObject { name, assignments, tokens, responder })
            },
            RuntimeCommand::ReleaseFunction { fn_id, responder } => {
                let _ = self.core.release_function(fn_id);
                Handled::Reply(done_reply(responder))
            },
            _ => Handled::Queued,
        }
    }

    /// Carries out a command that is always allowed.
    fn run_always(
        &mut self,
        termination: &mut TerminationController,
        watchdog: &mut Watchdog,
        cmd: RuntimeCommand,
    ) -> (r: Handled)
        requires
            always_allowed(cmd),
        ensures
            always_done(
                runner(*old(self), *old(termination), *old(watchdog)),
                cmd,
                runner(*final(self), *final(termination), *final(watchdog)),
                r,
            ),
    {
        match cmd {
            RuntimeCommand::StreamRelease { stream_id, responder } => {
                let result: RuntimeResult<()> = self.core.release_js_stream(stream_id);
                Handled::Reply(Reply { responder, body: ReplyBody::Unit(result) })
            },
            RuntimeCommand::StreamCancel { stream_id, responder } => {
                match self.core.js_stream(stream_id) {
                    Ok(stream) => Handled::Perform(
                        EngineTask::CancelStream { stream_id, stream, responder },
                    ),
                    Err(err) => Handled::Reply(
                        Reply { responder, body: ReplyBody::Unit(Err(err)) },
                    ),
                }
            },
            RuntimeCommand::GetStats { responder } => Handled::Perform(
                EngineTask::CollectStats { responder },
            ),
            RuntimeCommand::Terminate { responder } => {
                let mut replies: Vec<Reply> = self.abort(termination, watchdog);
                let ghost before = replies@;
                replies.push(done_reply(responder));
                assert(reply_views(replies@) =~= reply_views(before).push(replies@.last().view()));
                Handled::Exit(replies)
            },
            RuntimeCommand::Shutdown { responder } => {
                let _ = self.core.release_all_functions();
                self.core.clear_task_locals();
                let mut replies: Vec<Reply> = Vec::new();
                replies.push(Reply { responder, body: ReplyBody::Closed });
                assert(reply_views(replies@) =~= seq![
                    ReplyView { responder, body: BodyView::Closed },
                ]);
                Handled::Exit(replies)
            },
            _ => Handled::Queued,
        }
    }

    /// Ends a synchronous evaluation.
    pub fn finish_eval(
        &mut self,
        termination: &mut TerminationController,
        watchdog: &mut Watchdog,
        clock: TaskClock,
        now: Duration,
        outcome: EntryOutcome,
    ) -> (reply: Reply)
        ensures
            (
                runner(*final(self), *final(termination), *final(watchdog)),
                reply.view(),
            ) == entry_finished(
                runner(*old(self), *old(termination), *old(watchdog)),
                clock,
                RuntimeCallKind::EvalSync,
                "Sync evaluation"@,
                now@,
                outcome,
            ),
    {
        self.finish_entry(
            termination,
            watchdog,
            clock,
            RuntimeCallKind::EvalSync,
            "Sync evaluation",
            now,
            outcome,
        )
    }

    /// Ends a synchronous module evaluation.
    pub fn finish_eval_module(
        &mut self,
        termination: &mut TerminationController,
        watchdog: &mut Watchdog,
        clock: TaskClock,
        now: Duration,
        outcome: EntryOutcome,
    ) -> (reply: Reply)
        ensures
            (
                runner(*final(self), *final(termination), *final(watchdog)),
                reply.view(),
            ) == entry_finished(
                runner(*old(self), *old(termination), *old(watchdog)),
                clock,
                RuntimeCallKind::EvalModuleSync,
                "Sync module evaluation"@,
                now@,
                outcome,
            ),
    {
        self.finish_entry(
            termination,
            watchdog,
            clock,
            RuntimeCallKind::EvalModuleSync,
            "Sync module evaluation",
            now,
            outcome,
        )
    }

    fn finish_entry(
        &mut self,
        termination: &mut TerminationController,
        watchdog: &mut Watchdog,
        clock: TaskClock,
        kind: RuntimeCallKind,
        context: &str,
        now: Duration,
        outcome: EntryOutcome,
    ) -> (reply: Reply)
        ensures
            (
                runner(*final(self), *final(termination), *final(watchdog)),
                reply.view(),
            ) == entry_finished(
                runner(*old(self), *old(termination), *old(watchdog)),
                clock,
                kind,
                context@,
                now@,
                outcome,
            ),
    {
        let result: RuntimeResult<JSValue> = match outcome {
            EntryOutcome::Threw(details) => Err(self.core.translate_js_error(termination, details)),
            EntryOutcome::EngineFailed(err) => Err(
                self.core.translate_core_error(termination, err),
            ),
            EntryOutcome::Finished(value) => value,
        };
        self.core.record_call(kind, clock.start, now);
        let answer: RuntimeResult<JSValue> = apply_watchdog_result(
            watchdog,
            termination,
            result,
            clock.watchdog,
            context,
        );
        value_reply(clock.responder, answer)
    }

    /// Ends a synchronous call of a stored function.
    pub fn finish_call_function(
        &mut self,
        termination: &mut TerminationController,
        watchdog: &mut Watchdog,
        clock: TaskClock,
        call: CallClock,
        now: Duration,
        outcome: CallOutcome,
    ) -> (reply: Reply)
        ensures
            call_answered(
                runner(*old(self), *old(termination), *old(watchdog)),
                clock,
                call,
                now@,
                outcome,
                runner(*final(self), *final(termination), *final(watchdog)),
                reply.view(),
            ),
    {
        let result: RuntimeResult<FunctionCallResult> = self.core.finish_call(
            termination,
            call,
            outcome,
        );
        let ghost core = self.core@;
        let ghost told = termination@;
        assert(call_finished(
            old(self).core@,
            old(termination)@,
            call,
            outcome,
            core,
            told,
            call_view(result),
        ));
        self.core.record_call(RuntimeCallKind::CallFunctionSync, clock.start, now);
        let answer: RuntimeResult<FunctionCallResult> = apply_watchdog_result(
            watchdog,
            termination,
            result,
            clock.watchdog,
            "Sync function call",
        );
        Reply { responder: clock.responder, body: ReplyBody::Call(answer) }
    }

    /// Ends the binding of an object.
    pub fn finish_bind_object(
        &mut self,
        responder: u64,
        tokens: &Vec<OpToken>,
        outcome: BindOutcome,
    ) -> (reply: Reply)
        ensures
            reply.view() == (ReplyView { responder, body: BodyView::Unit(bind_result(outcome)) }),
            final(self)@ == (DispatcherView {
                core: if outcome is Installed {
                    CoreView {
                        ops: all_exposed(old(self)@.core.ops, tokens@),
                        ..old(self)@.core
                    }
                } else {
                    old(self)@.core
                },
                ..old(self)@
            }),
    {
        let result: RuntimeResult<()> = self.core.finish_bind(tokens, outcome);
        Reply { responder, body: ReplyBody::Unit(result) }
    }

    /// Ends the cancellation of a JavaScript stream: whatever its reader said, the
    /// stream is released.
    pub fn finish_cancel_stream(&mut self, responder: u64, stream_id: u32) -> (reply: Reply)
        ensures
            reply.view() == (ReplyView {
                responder,
                body: BodyView::Unit(old(self)@.core.streams.release_result(stream_id)),
            }),
            final(self)@ == (DispatcherView {
                core: CoreView {
                    streams: old(self)@.core.streams.released(stream_id),
                    ..old(self)@.core
                },
                ..old(self)@
            }),
    {
        let result: RuntimeResult<()> = self.core.release_js_stream(stream_id);
        Reply { responder, body: ReplyBody::Unit(result) }
    }

    /// Reports all figures of the runtime.
    pub fn finish_stats(
        &self,
        responder: u64,
        heap: HeapSnapshot,
        activity: ActivitySummary,
        py_streams: &PyStreamRegistry,
    ) -> (reply: Reply)
        ensures
            reply.responder == responder,
            reply.body is Stats,
            reply.body->Stats_0 is Ok,
            stats_collected(
                self@.core,
                heap,
                activity,
                py_streams@,
                reply.body->Stats_0->Ok_0,
            ),
    {
        let snapshot: RuntimeStatsSnapshot = self.core.collect_stats(heap, activity, py_streams);
        Reply { responder, body: ReplyBody::Stats(Ok(snapshot)) }
    }
}

/// A runtime that is terminating takes nothing on: every command but those that are
/// always allowed is answered at once with the termination's error, and nothing
/// changes.
pub proof fn law_terminating_runtime_takes_nothing_on(
    before: RunnerView,
    now: Duration,
    cmd: RuntimeCommand,
    after: RunnerView,
    r: Handled,
)
    requires
        rejecting(before.core, before.termination),
        !always_allowed(cmd),
        handled(before, now, cmd, after, r),
    ensures
        after == before,
        r is Reply,
        r->Reply_0.view() == refusal(cmd, before.termination.error()),
        r->Reply_0.responder == responder_of(cmd),
{
}

/// Code never starts before the inspector was waited for, and it is waited for once.
pub proof fn law_inspector_is_waited_for_once(
    before: RunnerView,
    now: Duration,
    cmd: RuntimeCommand,
    after: RunnerView,
    r: Handled,
)
    requires
        runs_code(cmd),
        !rejecting(before.core, before.termination),
        handled(before, now, cmd, after, r),
    ensures
        gate_wait(before.core.inspector) != InspectorWait::Nothing <==> r is Wait,
        gate_wait(after.core.inspector) == InspectorWait::Nothing,
{
    assert(gate_wait(gate_opened(before.core.inspector)) == InspectorWait::Nothing);
}

/// No command leaves a job waiting while none is active.
pub proof fn law_commands_stay_orderly(
    before: RunnerView,
    now: Duration,
    cmd: RuntimeCommand,
    after: RunnerView,
    r: Handled,
)
    requires
        orderly(before),
        handled(before, now, cmd, after, r),
    ensures
        orderly(after),
{
}

} // verus!
