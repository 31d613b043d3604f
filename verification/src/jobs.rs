//! Async jobs: state machines the dispatcher polls between event-loop steps.

use crate::core_state::{
    apply_watchdog_result, call_error_translated, deadline_at, due_at, has_fired, span_of,
    timed_answer, translated, value_view, CallError, CoreView, PendingFunctionCall,
    RuntimeCoreState,
};
use crate::error::{ErrorView, JsExceptionDetails, RuntimeError, RuntimeResult};
use crate::js_value::{lemma_view, JSValue, JsView};
use crate::stats::RuntimeCallKind;
use crate::stream::{chunk_entries, chunk_of, ChunkError, ChunkFault, StreamChunk};
use crate::termination::{
    TerminationController, TerminationView, Watchdog, WatchdogToken, WatchdogView,
};
use crate::text::{decimal, push_decimal};
use crate::time::Duration;
use vstd::prelude::*;

verus! {

broadcast use lemma_view;

/// The wording of timeout messages: the reason given for the termination, the error
/// that the caller sees, what follows it, and the context of a watchdog that fired.
#[derive(Clone, Copy, Debug, PartialEq, Eq, Structural)]
pub enum TimeoutWording {
    Eval,
    EvalModule,
    CallFunction,
    /// Stream reads have no deadline, so only the context is ever used.
    StreamRead,
}

pub open spec fn wording_reason(wording: TimeoutWording) -> Seq<char> {
    match wording {
        TimeoutWording::Eval => "Asynchronous evaluation"@,
        TimeoutWording::EvalModule => "Asynchronous module evaluation"@,
        TimeoutWording::CallFunction => "Asynchronous function call"@,
        TimeoutWording::StreamRead => ""@,
    }
}

pub open spec fn wording_error(wording: TimeoutWording) -> Seq<char> {
    match wording {
        TimeoutWording::Eval => "Evaluation"@,
        TimeoutWording::EvalModule => "Module evaluation"@,
        TimeoutWording::CallFunction => "Function call"@,
        TimeoutWording::StreamRead => ""@,
    }
}

pub open spec fn wording_suffix(wording: TimeoutWording) -> Seq<char> {
    match wording {
        TimeoutWording::Eval => " (promise still pending)"@,
        _ => ""@,
    }
}

pub open spec fn wording_context(wording: TimeoutWording) -> Seq<char> {
    match wording {
        TimeoutWording::Eval => "Async evaluation"@,
        TimeoutWording::EvalModule => "Async module evaluation"@,
        TimeoutWording::CallFunction => "Async function call"@,
        TimeoutWording::StreamRead => "Stream read"@,
    }
}

impl TimeoutWording {
    fn reason(self) -> (text: &'static str)
        ensures
            text@ == wording_reason(self),
    {
        match self {
            TimeoutWording::Eval => "Asynchronous evaluation",
            TimeoutWording::EvalModule => "Asynchronous module evaluation",
            TimeoutWording::CallFunction => "Asynchronous function call",
            TimeoutWording::StreamRead => "",
        }
    }

    fn error(self) -> (text: &'static str)
        ensures
            text@ == wording_error(self),
    {
        match self {
            TimeoutWording::Eval => "Evaluation",
            TimeoutWording::EvalModule => "Module evaluation",
            TimeoutWording::CallFunction => "Function call",
            TimeoutWording::StreamRead => "",
        }
    }

    fn suffix(self) -> (text: &'static str)
        ensures
            text@ == wording_suffix(self),
    {
        match self {
            TimeoutWording::Eval => " (promise still pending)",
            _ => "",
        }
    }

    fn context(self) -> (text: &'static str)
        ensures
            text@ == wording_context(self),
    {
        match self {
            TimeoutWording::Eval => "Async evaluation",
            TimeoutWording::EvalModule => "Async module evaluation",
            TimeoutWording::CallFunction => "Async function call",
            TimeoutWording::StreamRead => "Stream read",
        }
    }
}

/// State every async job carries.
#[derive(Clone, Copy, Debug)]
pub struct JobCommon {
    /// The number of the caller who awaits the result.
    pub responder: u64,
    pub timeout_ms: Option<u64>,
    pub task_locals: Option<u64>,
    pub start_time: Duration,
    pub deadline: Option<Duration>,
    pub watchdog: Option<WatchdogToken>,
    pub kind: RuntimeCallKind,
    pub wording: TimeoutWording,
    /// Set when the passed deadline made the job ask the engine to stop, so that
    /// finishing the job clears it.
    pub terminated_by_deadline: bool,
}

/// What a job works on.
#[derive(Debug)]
pub enum JobBody {
    /// Run the script, then await whatever it produced.
    Eval { code: String },
    /// One read from a JS `ReadableStream`.
    StreamRead { stream_id: u32 },
    /// Call a stored function, then await the result.
    CallFunction { fn_id: u32, args: Vec<JSValue> },
    /// Await the promise of a call that was parked.
    Resume { promise: u64 },
    /// Load and evaluate a module, then read its namespace.
    EvalModule { specifier: String },
}

/// How far a job has come.
#[derive(Clone, Copy, Debug, PartialEq, Eq, Structural)]
pub enum JobStage {
    NotStarted,
    /// Waiting for the promise, or the evaluation of the module, with this handle.
    Waiting { handle: u64 },
    /// The module was evaluated; its namespace is read next.
    Namespace { handle: u64 },
    Done,
}

/// An async job, advanced one step at a time.
#[derive(Debug)]
pub struct Job {
    pub common: JobCommon,
    pub body: JobBody,
    pub stage: JobStage,
}

/// What polling a job asks for.
#[derive(Debug)]
pub enum JobPoll {
    /// The job is complete.
    Ready(RuntimeResult<JSValue>),
    /// Start the work and report with [`JobEvent::Started`].
    Start,
    /// Look at the promise and report with [`JobEvent::Observed`].
    CheckPromise { promise: u64 },
    /// Look at the evaluation and report with [`JobEvent::Evaluated`].
    CheckEvaluation { module: u64 },
    /// Read the namespace and report with [`JobEvent::NamespaceRead`].
    ReadNamespace { module: u64 },
}

/// What came of starting a job.
#[derive(Debug)]
pub enum StartOutcome {
    /// There is a promise, or an evaluation, to wait for.
    Waiting { handle: u64 },
    /// The script threw.
    Threw(JsExceptionDetails),
    /// The call produced no value.
    CallFailed(CallError),
    /// The work could not be started.
    Failed(RuntimeError),
}

/// What is read of a promise.
#[derive(Debug)]
pub enum PromiseReading {
    Pending,
    /// The value, converted.
    Fulfilled(RuntimeResult<JSValue>),
    Rejected(JsExceptionDetails),
}

/// What is read of the evaluation of a module.
#[derive(Debug)]
pub enum EvaluationReading {
    Pending,
    Evaluated,
    Failed(RuntimeError),
}

/// What a report to a job amounts to.
#[derive(Debug)]
pub enum JobProgress {
    Pending,
    Ready(RuntimeResult<JSValue>),
    /// The stream's reader returned something that is no chunk.
    BadChunk(ChunkError),
}

#[verifier::ext_equal]
pub enum ProgressView {
    Pending,
    Ready(Result<JsView, ErrorView>),
    BadChunk(ChunkFault),
}

impl JobProgress {
    pub open spec fn view(self) -> ProgressView {
        match self {
            JobProgress::Pending => ProgressView::Pending,
            JobProgress::Ready(result) => ProgressView::Ready(value_view(result)),
            JobProgress::BadChunk(err) => ProgressView::BadChunk(err@),
        }
    }
}

/// The error of a job whose deadline passed.
pub open spec fn expiry_text(common: JobCommon) -> Seq<char> {
    wording_error(common.wording) + " timed out after "@ + decimal(timeout_or_zero(common))
        + "ms"@ + wording_suffix(common.wording)
}

/// The reason that a job whose deadline passed gives for the termination.
pub open spec fn expiry_reason(common: JobCommon) -> Seq<char> {
    wording_reason(common.wording) + " timed out after "@ + decimal(timeout_or_zero(common))
        + "ms"@
}

pub open spec fn timeout_or_zero(common: JobCommon) -> nat {
    match common.timeout_ms {
        Some(ms) => ms as nat,
        None => 0,
    }
}

/// The job's deadline has passed.
pub open spec fn is_expired(common: JobCommon, now: nat) -> bool {
    match common.deadline {
        Some(deadline) => deadline@ <= now,
        None => false,
    }
}

/// The answer of a job that ends with `result`, and the watchdog and termination
/// state afterwards: a watchdog that fired makes it a timeout, and whatever the job's
/// own deadline latched is cleared.
pub open spec fn answered(
    common: JobCommon,
    watchdog: WatchdogView,
    termination: TerminationView,
    result: Result<JsView, ErrorView>,
) -> (Result<JsView, ErrorView>, WatchdogView, TerminationView) {
    let (answer, disarmed, after) = timed_answer(
        watchdog,
        termination,
        result,
        common.watchdog,
        wording_context(common.wording),
    );
    (
        answer,
        disarmed,
        if common.terminated_by_deadline {
            after.unlatched()
        } else {
            after
        },
    )
}

/// The core after a job published its task locals, if it has any.
pub open spec fn locals_installed(core: CoreView, locals: Option<u64>) -> CoreView {
    match locals {
        Some(handle) => CoreView {
            loader: crate::loader::LoaderView { task_locals: locals, ..core.loader },
            task_locals: locals,
            op_task_locals: locals,
            ..core
        },
        None => core,
    }
}

impl JobCommon {
    /// A job whose clock starts now.
    fn starting(
        kind: RuntimeCallKind,
        wording: TimeoutWording,
        timeout_ms: Option<u64>,
        task_locals: Option<u64>,
        responder: u64,
        watchdog: Option<WatchdogToken>,
        now: Duration,
    ) -> (common: JobCommon)
        ensures
            span_of(common.deadline) == due_at(now@, timeout_ms),
            common == (JobCommon {
                responder,
                timeout_ms,
                task_locals,
                start_time: now,
                deadline: common.deadline,
                watchdog,
                kind,
                wording,
                terminated_by_deadline: false,
            }),
    {
        JobCommon {
            responder,
            timeout_ms,
            task_locals,
            start_time: now,
            deadline: deadline_at(now, timeout_ms),
            watchdog,
            kind,
            wording,
            terminated_by_deadline: false,
        }
    }

    /// The deadline error, if it has passed, after asking the engine to stop.
    ///
    /// This termination is the job's own, and [`Job::finish`] cancels it: this check
    /// can beat the watchdog to the same deadline, in which case disarming reports
    /// nothing and nothing else would.
    fn expired(&mut self, termination: &mut TerminationController, now: Duration) -> (r: Option<
        RuntimeError,
    >)
        ensures
            match r {
                Some(err) => {
                    &&& is_expired(*old(self), now@)
                    &&& err@ == ErrorView::Timeout(expiry_text(*old(self)))
                    &&& *final(self) == (JobCommon { terminated_by_deadline: true, ..*old(self) })
                    &&& final(termination)@ == old(termination)@.with_reason(
                        expiry_reason(*old(self)),
                    ).stopping()
                },
                None => {
                    &&& !is_expired(*old(self), now@)
                    &&& *final(self) == *old(self)
                    &&& final(termination)@ == old(termination)@
                },
            },
    {
        let deadline: Duration = match self.deadline {
            Some(deadline) => deadline,
            None => return None,
        };
        if now.is_less(deadline) {
            return None;
        }
        let ms: u64 = match self.timeout_ms {
            Some(ms) => ms,
            None => 0,
        };
        let mut reason = self.wording.reason().to_owned();
        reason.append(" timed out after ");
        push_decimal(&mut reason, ms);
        reason.append("ms");
        termination.ensure_reason(&reason);
        termination.terminate_execution();
        self.terminated_by_deadline = true;
        let mut text = self.wording.error().to_owned();
        text.append(" timed out after ");
        push_decimal(&mut text, ms);
        text.append("ms");
        text.append(self.wording.suffix());
        Some(RuntimeError::timeout(text))
    }
}

/// An async evaluation.
pub fn eval_async_job(
    code: String,
    timeout_ms: Option<u64>,
    task_locals: Option<u64>,
    responder: u64,
    watchdog: Option<WatchdogToken>,
    now: Duration,
) -> (job: Job)
    ensures
        job_starts(
            job,
            RuntimeCallKind::EvalAsync,
            TimeoutWording::Eval,
            timeout_ms,
            task_locals,
            responder,
            watchdog,
            now,
        ),
        job.body == (JobBody::Eval { code }),
{
    let common = JobCommon::starting(
        RuntimeCallKind::EvalAsync,
        TimeoutWording::Eval,
        timeout_ms,
        task_locals,
        responder,
        watchdog,
        now,
    );
    Job { common, body: JobBody::Eval { code }, stage: JobStage::NotStarted }
}

/// A job that starts now and was not advanced yet.
pub open spec fn job_starts(
    job: Job,
    kind: RuntimeCallKind,
    wording: TimeoutWording,
    timeout_ms: Option<u64>,
    task_locals: Option<u64>,
    responder: u64,
    watchdog: Option<WatchdogToken>,
    now: Duration,
) -> bool {
    &&& job.stage == JobStage::NotStarted
    &&& span_of(job.common.deadline) == due_at(now@, timeout_ms)
    &&& job.common == (JobCommon {
        responder,
        timeout_ms,
        task_locals,
        start_time: now,
        deadline: job.common.deadline,
        watchdog,
        kind,
        wording,
        terminated_by_deadline: false,
    })
}

/// One read from a JS `ReadableStream`; it has no deadline.
pub fn stream_read_job(stream_id: u32, responder: u64, now: Duration) -> (job: Job)
    ensures
        job_starts(
            job,
            RuntimeCallKind::EvalAsync,
            TimeoutWording::StreamRead,
            None,
            None,
            responder,
            None,
            now,
        ),
        job.body == (JobBody::StreamRead { stream_id }),
{
    let common = JobCommon::starting(
        RuntimeCallKind::EvalAsync,
        TimeoutWording::StreamRead,
        None,
        None,
        responder,
        None,
        now,
    );
    Job { common, body: JobBody::StreamRead { stream_id }, stage: JobStage::NotStarted }
}

/// An async call of a stored JS function.
pub fn call_function_async_job(
    fn_id: u32,
    args: Vec<JSValue>,
    timeout_ms: Option<u64>,
    task_locals: Option<u64>,
    responder: u64,
    watchdog: Option<WatchdogToken>,
    now: Duration,
) -> (job: Job)
    ensures
        job_starts(
            job,
            RuntimeCallKind::CallFunctionAsync,
            TimeoutWording::CallFunction,
            timeout_ms,
            task_locals,
            responder,
            watchdog,
            now,
        ),
        job.body == (JobBody::CallFunction { fn_id, args }),
{
    let common = JobCommon::starting(
        RuntimeCallKind::CallFunctionAsync,
        TimeoutWording::CallFunction,
        timeout_ms,
        task_locals,
        responder,
        watchdog,
        now,
    );
    Job { common, body: JobBody::CallFunction { fn_id, args }, stage: JobStage::NotStarted }
}

/// An async module evaluation.
pub fn eval_module_async_job(
    specifier: String,
    timeout_ms: Option<u64>,
    task_locals: Option<u64>,
    responder: u64,
    watchdog: Option<WatchdogToken>,
    now: Duration,
) -> (job: Job)
    ensures
        job_starts(
            job,
            RuntimeCallKind::EvalModuleAsync,
            TimeoutWording::EvalModule,
            timeout_ms,
            task_locals,
            responder,
            watchdog,
            now,
        ),
        job.body == (JobBody::EvalModule { specifier }),
{
    let common = JobCommon::starting(
        RuntimeCallKind::EvalModuleAsync,
        TimeoutWording::EvalModule,
        timeout_ms,
        task_locals,
        responder,
        watchdog,
        now,
    );
    Job { common, body: JobBody::EvalModule { specifier }, stage: JobStage::NotStarted }
}

/// The token of a resumed call: armed for what is left of the clock, but reporting
/// the original timeout.
pub open spec fn resumed_token(
    pending: PendingFunctionCall,
    watchdog: WatchdogView,
    token: Option<WatchdogToken>,
    now: nat,
) -> bool {
    match pending.deadline {
        None => token is None,
        Some(deadline) => {
            &&& token is Some
            &&& (token->0).id == watchdog.next_id
            &&& (token->0).duration@ == match pending.timeout_ms {
                Some(ms) => (ms * 1_000_000) as nat,
                None => crate::core_state::elapsed_nanos(now, deadline@),
            }
        },
    }
}

/// Resume a sync call that returned a promise, on the original clock
/// (restarting it would silently double the caller's timeout).
pub fn resume_function_call_job(
    pending: PendingFunctionCall,
    task_locals: Option<u64>,
    responder: u64,
    watchdog: &mut Watchdog,
    now: Duration,
) -> (job: Job)
    ensures
        job.stage == JobStage::NotStarted,
        job.body == (JobBody::Resume { promise: pending.promise }),
        job.common == (JobCommon {
            responder,
            timeout_ms: pending.timeout_ms,
            task_locals,
            start_time: pending.start_time,
            deadline: pending.deadline,
            watchdog: job.common.watchdog,
            kind: RuntimeCallKind::CallFunctionAsync,
            wording: TimeoutWording::CallFunction,
            terminated_by_deadline: false,
        }),
        resumed_token(pending, old(watchdog)@, job.common.watchdog, now@),
        final(watchdog)@ == match pending.deadline {
            Some(deadline) => old(watchdog)@.armed_at(
                now@,
                crate::core_state::elapsed_nanos(now@, deadline@),
                "Asynchronous function call timed out"@,
            ),
            None => old(watchdog)@,
        },
{
    let token: Option<WatchdogToken> = match pending.deadline {
        Some(deadline) => {
            let left: Duration = deadline.saturating_sub(now);
            let armed: WatchdogToken = watchdog.arm(
                now,
                left,
                "Asynchronous function call timed out",
            );
            match pending.timeout_ms {
                Some(ms) => Some(
                    WatchdogToken { id: armed.id, duration: Duration::from_millis(ms) },
                ),
                None => Some(armed),
            }
        },
        None => None,
    };
    let common = JobCommon {
        responder,
        timeout_ms: pending.timeout_ms,
        task_locals,
        start_time: pending.start_time,
        deadline: pending.deadline,
        watchdog: token,
        kind: RuntimeCallKind::CallFunctionAsync,
        wording: TimeoutWording::CallFunction,
        terminated_by_deadline: false,
    };
    Job { common, body: JobBody::Resume { promise: pending.promise }, stage: JobStage::NotStarted }
}

/// What a poll asks for.
#[verifier::ext_equal]
pub enum AskView {
    Ready(Result<JsView, ErrorView>),
    Start,
    CheckPromise(u64),
    CheckEvaluation(u64),
    ReadNamespace(u64),
}

impl JobPoll {
    pub open spec fn view(self) -> AskView {
        match self {
            JobPoll::Ready(result) => AskView::Ready(value_view(result)),
            JobPoll::Start => AskView::Start,
            JobPoll::CheckPromise { promise } => AskView::CheckPromise(promise),
            JobPoll::CheckEvaluation { module } => AskView::CheckEvaluation(module),
            JobPoll::ReadNamespace { module } => AskView::ReadNamespace(module),
        }
    }
}

/// What polling a job that is not past its deadline asks for.
pub open spec fn asks(job: Job) -> AskView {
    match job.stage {
        JobStage::NotStarted => AskView::Start,
        JobStage::Waiting { handle } => if job.body is EvalModule {
            AskView::CheckEvaluation(handle)
        } else {
            AskView::CheckPromise(handle)
        },
        JobStage::Namespace { handle } => AskView::ReadNamespace(handle),
        JobStage::Done => AskView::Ready(Err(ErrorView::Internal("Job already completed"@))),
    }
}

/// What polling a job does: what is left of the job, the core and the termination
/// state, and what it asks for. The deadline comes first; a job that starts publishes
/// its task locals.
pub open spec fn polled(job: Job, core: CoreView, termination: TerminationView, now: nat) -> (
    JobCommon,
    CoreView,
    TerminationView,
    AskView,
) {
    if is_expired(job.common, now) {
        (
            JobCommon { terminated_by_deadline: true, ..job.common },
            core,
            termination.with_reason(expiry_reason(job.common)).stopping(),
            AskView::Ready(Err(ErrorView::Timeout(expiry_text(job.common)))),
        )
    } else if job.stage == JobStage::NotStarted {
        (job.common, locals_installed(core, job.common.task_locals), termination, asks(job))
    } else {
        (job.common, core, termination, asks(job))
    }
}

/// What was found out about the work of a job.
#[derive(Debug)]
pub enum JobEvent {
    Started(StartOutcome),
    Observed(PromiseReading),
    Evaluated(EvaluationReading),
    NamespaceRead(RuntimeResult<JSValue>),
}

/// What an event does to a job: its stage, the core, the termination state, and what
/// the event amounts to.
pub open spec fn reported(
    job: Job,
    core: CoreView,
    termination: TerminationView,
    event: JobEvent,
) -> (JobStage, CoreView, TerminationView, ProgressView) {
    match event {
        JobEvent::Started(StartOutcome::Waiting { handle }) => (
            JobStage::Waiting { handle },
            core,
            termination,
            ProgressView::Pending,
        ),
        JobEvent::Started(StartOutcome::Threw(details)) => {
            let (c, t, e) = translated(core, termination, ErrorView::JavaScript(details@));
            (JobStage::Done, c, t, ProgressView::Ready(Err(e)))
        },
        JobEvent::Started(StartOutcome::CallFailed(err)) => {
            let (c, t, e) = call_error_translated(core, termination, err);
            (JobStage::Done, c, t, ProgressView::Ready(Err(e)))
        },
        JobEvent::Started(StartOutcome::Failed(err)) => (
            if job.body is EvalModule {
                job.stage
            } else {
                JobStage::Done
            },
            core,
            termination,
            ProgressView::Ready(Err(err@)),
        ),
        JobEvent::Observed(PromiseReading::Pending) => (
            job.stage,
            core,
            termination,
            ProgressView::Pending,
        ),
        JobEvent::Observed(PromiseReading::Fulfilled(value)) => {
            let (c, progress) = fulfilled(job.body, core, value_view(value));
            (JobStage::Done, c, termination, progress)
        },
        JobEvent::Observed(PromiseReading::Rejected(details)) => {
            let (c, t, e) = translated(core, termination, ErrorView::JavaScript(details@));
            (JobStage::Done, c, t, ProgressView::Ready(Err(e)))
        },
        JobEvent::Evaluated(EvaluationReading::Pending) => (
            job.stage,
            core,
            termination,
            ProgressView::Pending,
        ),
        JobEvent::Evaluated(EvaluationReading::Evaluated) => (
            match job.stage {
                JobStage::Waiting { handle } => JobStage::Namespace { handle },
                other => other,
            },
            core,
            termination,
            ProgressView::Pending,
        ),
        JobEvent::Evaluated(EvaluationReading::Failed(err)) => {
            let (c, t, e) = translated(core, termination, err@);
            (JobStage::Done, c, t, ProgressView::Ready(Err(e)))
        },
        JobEvent::NamespaceRead(result) => (
            JobStage::Done,
            core,
            termination,
            ProgressView::Ready(value_view(result)),
        ),
    }
}

/// What a fulfilled promise of a job amounts to, and the streams afterwards. A read
/// chunk is counted, and the last one releases the stream.
pub open spec fn fulfilled(
    body: JobBody,
    core: CoreView,
    value: Result<JsView, ErrorView>,
) -> (CoreView, ProgressView) {
    match (body, value) {
        (JobBody::StreamRead { stream_id }, Ok(payload)) => match chunk_of(payload) {
            Err(fault) => (core, ProgressView::BadChunk(fault)),
            Ok(chunk) => {
                let counted = core.streams.after_chunk(stream_id, chunk);
                (
                    CoreView {
                        streams: if chunk.done {
                            counted.released(stream_id)
                        } else {
                            counted
                        },
                        ..core
                    },
                    ProgressView::Ready(Ok(JsView::Object(chunk_entries(chunk)))),
                )
            },
        },
        _ => (core, ProgressView::Ready(value)),
    }
}

impl Job {
    /// When this job's own poll will time out.
    pub fn deadline(&self) -> (deadline: Option<Duration>)
        ensures
            deadline == self.common.deadline,
    {
        self.common.deadline
    }

    /// Advance one tick. The deadline comes first; a job that starts publishes its
    /// task locals.
    pub fn poll(
        &mut self,
        core: &mut RuntimeCoreState,
        termination: &mut TerminationController,
        now: Duration,
    ) -> (poll: JobPoll)
        ensures
            final(self).body == old(self).body,
            final(self).stage == old(self).stage,
            (final(self).common, final(core)@, final(termination)@, poll.view()) == polled(
                *old(self),
                old(core)@,
                old(termination)@,
                now@,
            ),
    {
        if let Some(err) = self.common.expired(termination, now) {
            return JobPoll::Ready(Err(err));
        }
        match self.stage {
            JobStage::NotStarted => {
                if self.common.task_locals.is_some() {
                    core.set_task_locals(self.common.task_locals);
                }
                JobPoll::Start
            },
            JobStage::Waiting { handle } => match &self.body {
                JobBody::EvalModule { .. } => JobPoll::CheckEvaluation { module: handle },
                _ => JobPoll::CheckPromise { promise: handle },
            },
            JobStage::Namespace { handle } => JobPoll::ReadNamespace { module: handle },
            JobStage::Done => JobPoll::Ready(
                Err(RuntimeError::internal_text("Job already completed")),
            ),
        }
    }

    /// Takes in what was found out about the job's work.
    pub fn report(
        &mut self,
        core: &mut RuntimeCoreState,
        termination: &mut TerminationController,
        event: JobEvent,
    ) -> (progress: JobProgress)
        ensures
            final(self).common == old(self).common,
            final(self).body == old(self).body,
            (final(self).stage, final(core)@, final(termination)@, progress.view()) == reported(
                *old(self),
                old(core)@,
                old(termination)@,
                event,
            ),
    {
        match event {
            JobEvent::Started(outcome) => self.started(core, termination, outcome),
            JobEvent::Observed(reading) => self.observed(core, termination, reading),
            JobEvent::Evaluated(reading) => self.evaluated(core, termination, reading),
            JobEvent::NamespaceRead(result) => {
                self.stage = JobStage::Done;
                JobProgress::Ready(result)
            },
        }
    }

    fn started(
        &mut self,
        core: &mut RuntimeCoreState,
        termination: &mut TerminationController,
        outcome: StartOutcome,
    ) -> (progress: JobProgress)
        ensures
            final(self).common == old(self).common,
            final(self).body == old(self).body,
            (final(self).stage, final(core)@, final(termination)@, progress.view()) == reported(
                *old(self),
                old(core)@,
                old(termination)@,
                JobEvent::Started(outcome),
            ),
    {
        match outcome {
            StartOutcome::Waiting { handle } => {
                self.stage = JobStage::Waiting { handle };
                JobProgress::Pending
            },
            StartOutcome::Threw(details) => {
                self.stage = JobStage::Done;
                JobProgress::Ready(Err(core.translate_js_error(termination, details)))
            },
            StartOutcome::CallFailed(err) => {
                self.stage = JobStage::Done;
                JobProgress::Ready(Err(core.translate_call_error(termination, err)))
            },
            StartOutcome::Failed(err) => {
                // A module that could not be loaded leaves the job where it was.
                if !matches!(&self.body, JobBody::EvalModule { .. }) {
                    self.stage = JobStage::Done;
                }
                JobProgress::Ready(Err(err))
            },
        }
    }

    fn observed(
        &mut self,
        core: &mut RuntimeCoreState,
        termination: &mut TerminationController,
        reading: PromiseReading,
    ) -> (progress: JobProgress)
        ensures
            final(self).common == old(self).common,
            final(self).body == old(self).body,
            (final(self).stage, final(core)@, final(termination)@, progress.view()) == reported(
                *old(self),
                old(core)@,
                old(termination)@,
                JobEvent::Observed(reading),
            ),
    {
        match reading {
            PromiseReading::Pending => JobProgress::Pending,
            PromiseReading::Fulfilled(value) => {
                self.stage = JobStage::Done;
                let stream: Option<u32> = match &self.body {
                    JobBody::StreamRead { stream_id } => Some(*stream_id),
                    _ => None,
                };
                match (stream, value) {
                    (Some(stream_id), Ok(payload)) => finish_stream_read(core, stream_id, payload),
                    (_, other) => JobProgress::Ready(other),
                }
            },
            PromiseReading::Rejected(details) => {
                self.stage = JobStage::Done;
                JobProgress::Ready(Err(core.translate_js_error(termination, details)))
            },
        }
    }

    fn evaluated(
        &mut self,
        core: &mut RuntimeCoreState,
        termination: &mut TerminationController,
        reading: EvaluationReading,
    ) -> (progress: JobProgress)
        ensures
            final(self).common == old(self).common,
            final(self).body == old(self).body,
            (final(self).stage, final(core)@, final(termination)@, progress.view()) == reported(
                *old(self),
                old(core)@,
                old(termination)@,
                JobEvent::Evaluated(reading),
            ),
    {
        match reading {
            EvaluationReading::Pending => JobProgress::Pending,
            EvaluationReading::Evaluated => {
                if let JobStage::Waiting { handle } = self.stage {
                    self.stage = JobStage::Namespace { handle };
                }
                JobProgress::Pending
            },
            EvaluationReading::Failed(err) => {
                self.stage = JobStage::Done;
                JobProgress::Ready(Err(core.translate_core_error(termination, err)))
            },
        }
    }

    /// Consume the job, resolving its watchdog: the answer to its caller.
    ///
    /// Whatever the job's own deadline latched has nothing left to stop, and is
    /// cleared or it would stop the next call.
    pub fn finish(
        self,
        termination: &mut TerminationController,
        watchdog: &mut Watchdog,
        result: RuntimeResult<JSValue>,
    ) -> (answer: RuntimeResult<JSValue>)
        ensures
            (value_view(answer), final(watchdog)@, final(termination)@) == answered(
                self.common,
                old(watchdog)@,
                old(termination)@,
                value_view(result),
            ),
    {
        let answer: RuntimeResult<JSValue> = apply_watchdog_result(
            watchdog,
            termination,
            result,
            self.common.watchdog,
            self.common.wording.context(),
        );
        if self.common.terminated_by_deadline {
            let _ = termination.cancel_terminate_execution();
        }
        answer
    }
}

/// Counts a chunk that a stream's reader returned; the last one releases the stream.
fn finish_stream_read(core: &mut RuntimeCoreState, stream_id: u32, payload: JSValue) -> (progress:
    JobProgress)
    ensures
        (final(core)@, progress.view()) == fulfilled(
            JobBody::StreamRead { stream_id },
            old(core)@,
            Ok(payload.view()),
        ),
{
    match StreamChunk::from_js_value(payload) {
        Err(err) => JobProgress::BadChunk(err),
        Ok(chunk) => {
            core.count_chunk(stream_id, &chunk);
            if chunk.done {
                let _ = core.release_js_stream(stream_id);
            }
            JobProgress::Ready(Ok(chunk.to_js_value()))
        },
    }
}

/// However a job ends, nothing that its own deadline or its own watchdog latched
/// stays latched.
pub proof fn law_finished_job_leaves_nothing_latched(
    common: JobCommon,
    watchdog: WatchdogView,
    termination: TerminationView,
    result: Result<JsView, ErrorView>,
)
    ensures
        ({
            let (_, _, after) = answered(common, watchdog, termination, result);
            &&& common.terminated_by_deadline ==> !after.latched
            &&& (common.watchdog is Some && has_fired(watchdog, common.watchdog->0))
                ==> !after.latched
            &&& !termination.latched ==> !after.latched
        }),
{
}

/// A resumed call times out when the original call was due, not later: its clock
/// is the one that [`RuntimeCoreState::begin_call`] started.
pub proof fn law_resuming_keeps_the_clock(
    timeout_ms: Option<u64>,
    start: nat,
    pending: PendingFunctionCall,
    job: Job,
    now: nat,
)
    requires
        span_of(pending.deadline) == due_at(start, timeout_ms),
        job.common.deadline == pending.deadline,
    ensures
        is_expired(job.common, now) == match due_at(start, timeout_ms) {
            Some(due) => due <= now,
            None => false,
        },
{
}

} // verus!
