//! The runtime thread's main loop: drive the event loop, poll the active job, handle
//! commands, and park when there is nothing to do.
//!
//! The engine is driven from outside: each function here decides what is done next,
//! and is told what came of it.

use crate::commands::{reply_views, BodyView, Reply, ReplyBody, ReplyView};
use crate::core_state::{
    elapsed_nanos, finalized, has_fired, rejecting, resolve_watchdog, termination_finalized,
    translated, value_view, CoreView, RuntimeCoreState,
};
use crate::error::{
    error_indicates_termination, runtime_error_indicates_termination, ErrorView, RuntimeError,
    RuntimeResult,
};
use crate::jobs::{
    answered, is_expired, polled, reported, AskView, Job, JobEvent, JobPoll, JobProgress,
    ProgressView,
};
use crate::js_value::{lemma_view, JSValue, JsView};
use crate::loader::LoaderView;
use crate::stats::RuntimeCallKind;
use crate::stream::ChunkError;
use crate::termination::{
    lemma_position_found, position_of, TerminationController, TerminationView, Watchdog,
    WatchdogToken, WatchdogView,
};
use crate::time::Duration;
use std::collections::VecDeque;
use vstd::prelude::*;

verus! {

broadcast use lemma_view;

/// Safety-net re-poll interval in milliseconds, used only while async work is in
/// flight.
pub const PENDING_WORK_TICK_MS: u64 = 1;

/// How one step of the event loop ended.
#[derive(Debug)]
pub enum LoopPoll {
    /// Something is outstanding.
    Pending,
    /// Nothing is outstanding.
    Drained,
    Failed(RuntimeError),
}

/// What follows a step of the event loop.
#[derive(Debug)]
pub enum StepNext {
    /// Begin the next step at once, after answering the failed job, if there is one.
    Restart { reply: Option<Reply> },
    /// Go on to the active job.
    Proceed { drained: bool },
}

/// What advancing the active job amounts to.
#[derive(Debug)]
pub enum Advance {
    NoJob,
    Answered(Reply),
    /// Find out, and tell it with [`RuntimeDispatcher::report`].
    Perform(JobPoll),
}

/// What a report on the active job amounts to.
#[derive(Debug)]
pub enum Reported {
    NoJob,
    Pending,
    Answered(Reply),
    /// The stream's reader returned something that is no chunk: complete the job with
    /// its error.
    BadChunk(ChunkError),
}

/// How the loop waits for its next turn.
#[derive(Clone, Copy, Debug)]
pub enum Park {
    /// Not at all.
    Again,
    /// For a command or a wake-up.
    Idle,
    /// For a command or a wake-up, but no longer than this.
    AtMost(Duration),
}

/// The state of the runtime thread.
#[verifier::ext_equal]
pub struct RunnerView {
    pub core: CoreView,
    pub active: Option<Job>,
    pub pending: Seq<Job>,
    /// A job was activated and has not had its un-waited iteration.
    pub fresh: bool,
    pub termination: TerminationView,
    pub watchdog: WatchdogView,
}

/// The jobs that are not answered yet, in the order in which they are run.
pub open spec fn in_flight(runner: RunnerView) -> Seq<Job> {
    match runner.active {
        Some(job) => seq![job] + runner.pending,
        None => runner.pending,
    }
}

/// No job waits while none is active.
pub open spec fn orderly(runner: RunnerView) -> bool {
    runner.active is None ==> runner.pending.len() == 0
}

/// The state after a job was submitted.
pub open spec fn submitted(runner: RunnerView, job: Job) -> RunnerView {
    match runner.active {
        None => RunnerView { active: Some(job), fresh: true, ..runner },
        Some(_) => RunnerView { pending: runner.pending.push(job), ..runner },
    }
}

/// The job that was submitted last.
pub open spec fn newest(before: RunnerView, after: RunnerView) -> Job {
    match before.active {
        None => after.active->0,
        Some(_) => after.pending.last(),
    }
}

/// The core without task locals.
pub open spec fn without_locals(core: CoreView) -> CoreView {
    CoreView {
        loader: LoaderView { task_locals: None, ..core.loader },
        task_locals: None,
        op_task_locals: None,
        ..core
    }
}

/// The core with one more call counted.
pub open spec fn counted(core: CoreView, kind: RuntimeCallKind, start: nat, now: nat) -> CoreView {
    CoreView { stats: core.stats.recorded(kind, elapsed_nanos(start, now)), ..core }
}

/// The state and the answer once the active job ended with `result`: the call is
/// counted, its watchdog resolved, stale task locals dropped and the next job
/// activated.
pub open spec fn completed(runner: RunnerView, now: nat, result: Result<JsView, ErrorView>) -> (
    RunnerView,
    Option<ReplyView>,
) {
    match runner.active {
        None => (runner, None),
        Some(job) => {
            let (answer, watchdog, termination) = answered(
                job.common,
                runner.watchdog,
                runner.termination,
                result,
            );
            (
                RunnerView {
                    core: without_locals(
                        counted(runner.core, job.common.kind, job.common.start_time@, now),
                    ),
                    active: if runner.pending.len() > 0 {
                        Some(runner.pending[0])
                    } else {
                        None
                    },
                    pending: if runner.pending.len() > 0 {
                        runner.pending.drop_first()
                    } else {
                        runner.pending
                    },
                    fresh: runner.fresh || runner.pending.len() > 0,
                    termination,
                    watchdog,
                },
                Some(
                    ReplyView {
                        responder: job.common.responder,
                        body: BodyView::Value(answer),
                    },
                ),
            )
        },
    }
}

/// The answers to jobs that all end with `err`, in order, and the watchdog and
/// termination state afterwards.
pub open spec fn all_answered(
    jobs: Seq<Job>,
    watchdog: WatchdogView,
    termination: TerminationView,
    err: ErrorView,
) -> (Seq<ReplyView>, WatchdogView, TerminationView)
    decreases jobs.len(),
{
    if jobs.len() == 0 {
        (Seq::empty(), watchdog, termination)
    } else {
        let (replies, w, t) = all_answered(jobs.drop_last(), watchdog, termination, err);
        let job = jobs.last();
        let (answer, w2, t2) = answered(job.common, w, t, Err(err));
        (
            replies.push(
                ReplyView { responder: job.common.responder, body: BodyView::Value(answer) },
            ),
            w2,
            t2,
        )
    }
}

/// The state and the answers after every job was failed with `err`.
pub open spec fn cancelled(runner: RunnerView, err: ErrorView) -> (RunnerView, Seq<ReplyView>) {
    let (replies, watchdog, termination) = all_answered(
        in_flight(runner),
        runner.watchdog,
        runner.termination,
        err,
    );
    (
        RunnerView {
            core: without_locals(runner.core),
            active: None,
            pending: Seq::empty(),
            fresh: runner.fresh,
            termination,
            watchdog,
        },
        replies,
    )
}

/// The state and the answers after every job was failed as terminated and the
/// termination was finalized.
pub open spec fn aborted(runner: RunnerView) -> (RunnerView, Seq<ReplyView>) {
    let (after, replies) = cancelled(runner, runner.termination.error());
    (
        RunnerView {
            core: finalized(after.core),
            termination: termination_finalized(after.core, after.termination),
            ..after
        },
        replies,
    )
}

/// A watchdog was armed for this span, if there is one.
pub open spec fn armed_for(
    before: WatchdogView,
    now: nat,
    span: Option<nat>,
    reason: Seq<char>,
    token: Option<WatchdogToken>,
    after: WatchdogView,
) -> bool {
    match span {
        None => token is None && after == before,
        Some(nanos) => {
            &&& token is Some
            &&& (token->0).id == before.next_id
            &&& (token->0).duration@ == nanos
            &&& after == before.armed_at(now, nanos, reason)
        },
    }
}

/// A timeout in milliseconds as a span.
pub open spec fn ms_span(timeout_ms: Option<u64>) -> Option<nat> {
    match timeout_ms {
        Some(ms) => Some((ms * 1_000_000) as nat),
        None => None,
    }
}

/// The runtime thread's jobs and the state they work on.
pub struct RuntimeDispatcher {
    pub core: RuntimeCoreState,
    pub pending_jobs: VecDeque<Job>,
    pub active_job: Option<Job>,
    /// Gives a freshly activated job one un-waited iteration: its first poll starts
    /// the work, and the promise it now waits on is often already resolved with
    /// nothing left to signal progress.
    pub job_just_activated: bool,
}

/// What a `RuntimeDispatcher` holds.
#[verifier::ext_equal]
pub struct DispatcherView {
    pub core: CoreView,
    pub active: Option<Job>,
    pub pending: Seq<Job>,
    /// A job was activated and has not had its un-waited iteration.
    pub fresh: bool,
}

impl View for RuntimeDispatcher {
    type V = DispatcherView;

    open spec fn view(&self) -> DispatcherView {
        DispatcherView {
            core: self.core@,
            active: self.active_job,
            pending: self.pending_jobs@,
            fresh: self.job_just_activated,
        }
    }
}

/// The state of the runtime thread.
pub open spec fn runner(
    dispatcher: RuntimeDispatcher,
    termination: TerminationController,
    watchdog: Watchdog,
) -> RunnerView {
    RunnerView {
        core: dispatcher@.core,
        active: dispatcher@.active,
        pending: dispatcher@.pending,
        fresh: dispatcher@.fresh,
        termination: termination@,
        watchdog: watchdog@,
    }
}

/// How long to park with work in flight: the tick, clamped to the active job's
/// deadline so that its timeout fires on time.
pub open spec fn work_wait(active: Option<Job>, now: nat) -> nat {
    let tick: nat = 1_000_000;
    match active {
        Some(job) => match job.common.deadline {
            Some(deadline) => if elapsed_nanos(now, deadline@) < tick {
                elapsed_nanos(now, deadline@)
            } else {
                tick
            },
            None => tick,
        },
        None => tick,
    }
}

/// What follows a step of the event loop: a failure that is no termination ends the
/// active job, and one that is a termination is left for the job's own poll.
pub open spec fn step_ended(
    before: RunnerView,
    token: Option<WatchdogToken>,
    poll: LoopPoll,
    now: nat,
    after: RunnerView,
    next: StepNext,
) -> bool {
    let resolved = match token {
        Some(t) => RunnerView {
            watchdog: before.watchdog.disarmed(t.id),
            termination: if has_fired(before.watchdog, t) {
                before.termination.unlatched()
            } else {
                before.termination
            },
            ..before
        },
        None => before,
    };
    match poll {
        LoopPoll::Pending => after == resolved && next == (StepNext::Proceed { drained: false }),
        LoopPoll::Drained => after == resolved && next == (StepNext::Proceed { drained: true }),
        LoopPoll::Failed(err) => {
            let (c, t, e) = translated(resolved.core, resolved.termination, err@);
            let told = RunnerView { core: c, termination: t, ..resolved };
            if error_indicates_termination(e) {
                after == told && next == (StepNext::Proceed { drained: true })
            } else {
                let (done, answer) = completed(told, now, Err(e));
                &&& after == done
                &&& next is Restart
                &&& match (next->reply, answer) {
                    (Some(reply), Some(view)) => reply.view() == view,
                    (None, None) => true,
                    _ => false,
                }
            }
        },
    }
}

/// What advancing the active job amounts to.
pub open spec fn advanced(before: RunnerView, now: nat, after: RunnerView, r: Advance) -> bool {
    match before.active {
        None => r is NoJob && after == before,
        Some(job) => {
            let (common, core, termination, ask) = polled(job, before.core, before.termination, now);
            let told = RunnerView {
                core,
                termination,
                active: Some(Job { common, body: job.body, stage: job.stage }),
                ..before
            };
            match ask {
                AskView::Ready(result) => {
                    let (done, answer) = completed(told, now, result);
                    after == done && r is Answered && answer == Some(r->Answered_0.view())
                },
                _ => after == told && r is Perform && r->Perform_0.view() == ask,
            }
        },
    }
}

/// What a report on the active job amounts to.
pub open spec fn taken_in(
    before: RunnerView,
    now: nat,
    event: JobEvent,
    after: RunnerView,
    r: Reported,
) -> bool {
    match before.active {
        None => r is NoJob && after == before,
        Some(job) => {
            let (stage, core, termination, progress) = reported(
                job,
                before.core,
                before.termination,
                event,
            );
            let told = RunnerView {
                core,
                termination,
                active: Some(Job { common: job.common, body: job.body, stage }),
                ..before
            };
            match progress {
                ProgressView::Pending => after == told && r is Pending,
                ProgressView::BadChunk(fault) => after == told && r is BadChunk
                    && r->BadChunk_0@ == fault,
                ProgressView::Ready(result) => {
                    let (done, answer) = completed(told, now, result);
                    after == done && r is Answered && answer == Some(r->Answered_0.view())
                },
            }
        },
    }
}

impl RuntimeDispatcher {
    pub fn new(core: RuntimeCoreState) -> (dispatcher: Self)
        ensures
            dispatcher@ == (DispatcherView {
                core: core@,
                active: None,
                pending: Seq::empty(),
                fresh: false,
            }),
    {
        let dispatcher = RuntimeDispatcher {
            core,
            pending_jobs: VecDeque::new(),
            active_job: None,
            job_just_activated: false,
        };
        assert(dispatcher.pending_jobs@ =~= Seq::empty());
        dispatcher
    }

    /// How long to park with work in flight.
    fn pending_work_wait(&self, now: Duration) -> (wait: Duration)
        ensures
            wait@ == work_wait(self@.active, now@),
    {
        let tick: Duration = Duration::from_millis(PENDING_WORK_TICK_MS);
        if let Some(job) = &self.active_job {
            if let Some(deadline) = job.deadline() {
                let left: Duration = deadline.saturating_sub(now);
                if left.is_less(tick) {
                    return left;
                }
            }
        }
        tick
    }

    /// Activate `job` if the runtime is free, otherwise queue it. Only activation
    /// sets `job_just_activated`.
    pub(crate) fn submit_job(&mut self, job: Job)
        ensures
            forall|t: TerminationController, w: Watchdog| #[trigger]
                runner(*final(self), t, w) == submitted(runner(*old(self), t, w), job),
    {
        if self.active_job.is_none() {
            self.job_just_activated = true;
            self.active_job = Some(job);
        } else {
            self.pending_jobs.push_back(job);
        }
    }

    /// Whether any job is not answered yet.
    fn has_work(&self) -> (yes: bool)
        ensures
            yes == (self@.active is Some || self@.pending.len() > 0),
    {
        self.active_job.is_some() || self.pending_jobs.len() > 0
    }

    /// Record, finish and clear the active job, then activate the next one. `None`
    /// when there is no active job.
    pub fn complete_active_job(
        &mut self,
        termination: &mut TerminationController,
        watchdog: &mut Watchdog,
        now: Duration,
        result: RuntimeResult<JSValue>,
    ) -> (reply: Option<Reply>)
        ensures
            ({
                let (after, answer) = completed(
                    runner(*old(self), *old(termination), *old(watchdog)),
                    now@,
                    value_view(result),
                );
                &&& runner(*final(self), *final(termination), *final(watchdog)) == after
                &&& match (reply, answer) {
                    (Some(r), Some(view)) => r.view() == view,
                    (None, None) => true,
                    _ => false,
                }
            }),
    {
        match self.active_job.take() {
            Some(job) => {
                let responder: u64 = job.common.responder;
                self.core.record_call(job.common.kind, job.common.start_time, now);
                let answer: RuntimeResult<JSValue> = job.finish(termination, watchdog, result);
                self.core.clear_task_locals();
                if let Some(next_job) = self.pending_jobs.pop_front() {
                    self.job_just_activated = true;
                    self.active_job = Some(next_job);
                }
                assert(old(self).pending_jobs@.len() > 0 ==> self.pending_jobs@
                    =~= old(self).pending_jobs@.drop_first());
                Some(Reply { responder, body: ReplyBody::Value(answer) })
            },
            None => None,
        }
    }

    /// Fail the active job and every queued job with `error`.
    fn cancel_all_jobs(
        &mut self,
        termination: &mut TerminationController,
        watchdog: &mut Watchdog,
        error: &RuntimeError,
    ) -> (replies: Vec<Reply>)
        ensures
            (
                runner(*final(self), *final(termination), *final(watchdog)),
                reply_views(replies@),
            ) == cancelled(runner(*old(self), *old(termination), *old(watchdog)), error@),
    {
        let ghost jobs = in_flight(runner(*old(self), *old(termination), *old(watchdog)));
        let mut replies: Vec<Reply> = Vec::new();
        assert(jobs.take(0) =~= Seq::empty());
        assert(reply_views(replies@) =~= Seq::empty());
        assert(all_answered(jobs.take(0), watchdog@, termination@, error@) == (
            Seq::<ReplyView>::empty(),
            watchdog@,
            termination@,
        ));
        let ghost mut done: int = 0;
        if let Some(job) = self.active_job.take() {
            assert(jobs[0] == job);
            assert(jobs.take(1).drop_last() =~= jobs.take(0));
            let responder: u64 = job.common.responder;
            let answer: RuntimeResult<JSValue> = job.finish(
                termination,
                watchdog,
                Err(error.clone()),
            );
            let ghost before = replies@;
            replies.push(Reply { responder, body: ReplyBody::Value(answer) });
            proof {
                done = 1;
                assert(reply_views(replies@) =~= reply_views(before).push(replies@.last().view()));
            }
        }
        assert(self.pending_jobs@ =~= jobs.skip(done));
        while self.pending_jobs.len() > 0
            invariant
                self.active_job is None,
                self.job_just_activated == old(self).job_just_activated,
                self.core@ == old(self).core@,
                0 <= done <= jobs.len(),
                self.pending_jobs@ == jobs.skip(done),
                (reply_views(replies@), watchdog@, termination@) == all_answered(
                    jobs.take(done),
                    old(watchdog)@,
                    old(termination)@,
                    error@,
                ),
            decreases self.pending_jobs@.len(),
        {
            if let Some(job) = self.pending_jobs.pop_front() {
                assert(jobs[done] == job);
                assert(jobs.take(done + 1).drop_last() =~= jobs.take(done));
                let responder: u64 = job.common.responder;
                let answer: RuntimeResult<JSValue> = job.finish(
                    termination,
                    watchdog,
                    Err(error.clone()),
                );
                let ghost before = replies@;
                replies.push(Reply { responder, body: ReplyBody::Value(answer) });
                proof {
                    assert(self.pending_jobs@ =~= jobs.skip(done + 1));
                    done = done + 1;
                    assert(reply_views(replies@) =~= reply_views(before).push(
                        replies@.last().view(),
                    ));
                }
            }
        }
        assert(jobs.take(done) =~= jobs);
        assert(self.pending_jobs@ =~= Seq::empty());
        self.core.clear_task_locals();
        replies
    }

    /// Fails every job as terminated and finalizes the termination.
    pub(crate) fn abort(
        &mut self,
        termination: &mut TerminationController,
        watchdog: &mut Watchdog,
    ) -> (replies: Vec<Reply>)
        ensures
            (
                runner(*final(self), *final(termination), *final(watchdog)),
                reply_views(replies@),
            ) == aborted(runner(*old(self), *old(termination), *old(watchdog))),
    {
        let error: RuntimeError = termination.terminated_error();
        let replies: Vec<Reply> = self.cancel_all_jobs(termination, watchdog, &error);
        self.core.finalize_termination(termination);
        replies
    }

    /// Begins a step of the event loop. With no job holding a deadline the step is
    /// still bounded by the execution timeout: work can outlive the job that queued
    /// it and would otherwise hang the loop.
    pub fn begin_step(&self, watchdog: &mut Watchdog, now: Duration) -> (token: Option<
        WatchdogToken,
    >)
        ensures
            if self@.active is None {
                armed_for(
                    old(watchdog)@,
                    now@,
                    self@.core.execution_timeout,
                    "Event loop step exceeded execution_timeout"@,
                    token,
                    final(watchdog)@,
                )
            } else {
                token is None && final(watchdog)@ == old(watchdog)@
            },
    {
        if self.active_job.is_none() {
            self.core.arm_execution_watchdog(
                watchdog,
                now,
                "Event loop step exceeded execution_timeout",
            )
        } else {
            None
        }
    }

    /// Ends a step of the event loop; with how long the step was allowed to take, if
    /// that was exceeded.
    pub fn end_step(
        &mut self,
        termination: &mut TerminationController,
        watchdog: &mut Watchdog,
        token: Option<WatchdogToken>,
        poll: LoopPoll,
        now: Duration,
    ) -> (r: (StepNext, Option<Duration>))
        ensures
            step_ended(
                runner(*old(self), *old(termination), *old(watchdog)),
                token,
                poll,
                now@,
                runner(*final(self), *final(termination), *final(watchdog)),
                r.0,
            ),
            r.1 == match token {
                Some(t) => if has_fired(old(watchdog)@, t) {
                    Some(t.duration)
                } else {
                    None
                },
                None => None,
            },
    {
        let mut exceeded: Option<Duration> = None;
        if let Some(t) = token {
            let (fired, duration): (bool, Duration) = resolve_watchdog(watchdog, termination, t);
            if fired {
                exceeded = Some(duration);
            }
        }
        let next: StepNext = match poll {
            LoopPoll::Pending => StepNext::Proceed { drained: false },
            LoopPoll::Drained => StepNext::Proceed { drained: true },
            LoopPoll::Failed(err) => {
                let error: RuntimeError = self.core.translate_core_error(termination, err);
                if runtime_error_indicates_termination(&error) {
                    StepNext::Proceed { drained: true }
                } else {
                    let reply: Option<Reply> = self.complete_active_job(
                        termination,
                        watchdog,
                        now,
                        Err(error),
                    );
                    StepNext::Restart { reply }
                }
            },
        };
        (next, exceeded)
    }

    /// Advances the active job one tick; a job that is complete is answered.
    pub fn advance(
        &mut self,
        termination: &mut TerminationController,
        watchdog: &mut Watchdog,
        now: Duration,
    ) -> (r: Advance)
        ensures
            advanced(
                runner(*old(self), *old(termination), *old(watchdog)),
                now@,
                runner(*final(self), *final(termination), *final(watchdog)),
                r,
            ),
    {
        match self.active_job.take() {
            None => Advance::NoJob,
            Some(taken) => {
                let mut job: Job = taken;
                let poll: JobPoll = job.poll(&mut self.core, termination, now);
                self.active_job = Some(job);
                match poll {
                    JobPoll::Ready(result) => match self.complete_active_job(
                        termination,
                        watchdog,
                        now,
                        result,
                    ) {
                        Some(reply) => Advance::Answered(reply),
                        None => Advance::NoJob,
                    },
                    other => Advance::Perform(other),
                }
            },
        }
    }

    /// Takes in what was found out about the active job; a job that is complete is
    /// answered.
    pub fn report(
        &mut self,
        termination: &mut TerminationController,
        watchdog: &mut Watchdog,
        now: Duration,
        event: JobEvent,
    ) -> (r: Reported)
        ensures
            taken_in(
                runner(*old(self), *old(termination), *old(watchdog)),
                now@,
                event,
                runner(*final(self), *final(termination), *final(watchdog)),
                r,
            ),
    {
        match self.active_job.take() {
            None => Reported::NoJob,
            Some(taken) => {
                let mut job: Job = taken;
                let progress: JobProgress = job.report(&mut self.core, termination, event);
                self.active_job = Some(job);
                match progress {
                    JobProgress::Pending => Reported::Pending,
                    JobProgress::BadChunk(err) => Reported::BadChunk(err),
                    JobProgress::Ready(result) => match self.complete_active_job(
                        termination,
                        watchdog,
                        now,
                        result,
                    ) {
                        Some(reply) => Reported::Answered(reply),
                        None => Reported::NoJob,
                    },
                }
            },
        }
    }

    /// Honours a termination request from another thread: with work in flight, every
    /// job is failed, the termination finalized, and the loop ends. The engine's own
    /// termination cannot reach a runtime parked on a pending promise.
    pub fn abort_if_terminated(
        &mut self,
        termination: &mut TerminationController,
        watchdog: &mut Watchdog,
    ) -> (exit: Option<Vec<Reply>>)
        ensures
            ({
                let before = runner(*old(self), *old(termination), *old(watchdog));
                let after = runner(*final(self), *final(termination), *final(watchdog));
                match exit {
                    Some(replies) => {
                        &&& rejecting(before.core, before.termination)
                        &&& in_flight(before).len() > 0
                        &&& (after, reply_views(replies@)) == aborted(before)
                    },
                    None => {
                        &&& !rejecting(before.core, before.termination) || in_flight(before).len()
                            == 0
                        &&& after == before
                    },
                }
            }),
    {
        if self.core.should_reject_new_work(termination) && self.has_work() {
            assert(in_flight(runner(*self, *termination, *watchdog)).len() > 0);
            Some(self.abort(termination, watchdog))
        } else {
            assert(!rejecting(self.core@, termination@) || in_flight(
                runner(*self, *termination, *watchdog),
            ).len() == 0);
            None
        }
    }

    /// How the loop waits for its next turn: not at all after a job was activated;
    /// for a command alone when idle; otherwise bounded by the active job's deadline
    /// and the tick.
    pub fn park(&mut self, drained: bool, now: Duration) -> (park: Park)
        ensures
            final(self)@ == (DispatcherView { fresh: false, ..old(self)@ }),
            ({
                let before = old(self)@;
                let idle = drained && before.active is None && before.pending.len() == 0;
                match park {
                    Park::Again => before.fresh,
                    Park::Idle => !before.fresh && idle,
                    Park::AtMost(wait) => !before.fresh && !idle && wait@ == work_wait(
                        before.active,
                        now@,
                    ),
                }
            }),
    {
        if self.job_just_activated {
            self.job_just_activated = false;
            return Park::Again;
        }
        if drained && self.active_job.is_none() && self.pending_jobs.len() == 0 {
            Park::Idle
        } else {
            let wait: Duration = self.pending_work_wait(now);
            Park::AtMost(wait)
        }
    }

    /// The command channel closed without a shutdown request: every job is failed and
    /// the loop ends.
    pub fn handle_channel_closed(
        &mut self,
        termination: &mut TerminationController,
        watchdog: &mut Watchdog,
    ) -> (replies: Vec<Reply>)
        ensures
            ({
                let before = runner(*old(self), *old(termination), *old(watchdog));
                (
                    runner(*final(self), *final(termination), *final(watchdog)),
                    reply_views(replies@),
                ) == aborted(
                    RunnerView {
                        termination: before.termination.with_reason(
                            "Command channel closed unexpectedly"@,
                        ),
                        ..before
                    },
                )
            }),
    {
        termination.ensure_reason("Command channel closed unexpectedly");
        self.abort(termination, watchdog)
    }
}

/// Jobs run in the order in which they were submitted: a new one is last in line.
pub proof fn law_submitted_jobs_queue_up(runner: RunnerView, job: Job)
    requires
        orderly(runner),
    ensures
        in_flight(submitted(runner, job)) == in_flight(runner).push(job),
        orderly(submitted(runner, job)),
{
    assert(in_flight(submitted(runner, job)) =~= in_flight(runner).push(job));
}

/// Completing a job answers the first in line, and it alone; the others stay in line.
pub proof fn law_first_in_line_is_answered(
    runner: RunnerView,
    now: nat,
    result: Result<JsView, ErrorView>,
)
    requires
        orderly(runner),
        in_flight(runner).len() > 0,
    ensures
        completed(runner, now, result).1 is Some,
        (completed(runner, now, result).1->0).responder == in_flight(
            runner,
        )[0].common.responder,
        in_flight(completed(runner, now, result).0) == in_flight(runner).drop_first(),
        orderly(completed(runner, now, result).0),
{
    assert(in_flight(completed(runner, now, result).0) =~= in_flight(runner).drop_first());
}

/// No watchdog of the job has fired.
pub open spec fn unfired(watchdog: WatchdogView, job: Job) -> bool {
    match job.common.watchdog {
        None => true,
        Some(token) => forall|k: int|
            0 <= k < watchdog.armed.len() && (#[trigger] watchdog.armed[k]).id == token.id
                ==> !watchdog.armed[k].fired,
    }
}

proof fn lemma_disarmed_holds_less(watchdog: WatchdogView, id: u64)
    ensures
        forall|k: int|
            0 <= k < watchdog.disarmed(id).armed.len() ==> watchdog.armed.contains(
                #[trigger] watchdog.disarmed(id).armed[k],
            ),
{
    let after = watchdog.disarmed(id);
    lemma_position_found(watchdog.armed, id);
    assert forall|k: int| 0 <= k < after.armed.len() implies watchdog.armed.contains(
        #[trigger] after.armed[k],
    ) by {
        assert(after.armed[k] == watchdog.armed[k] || after.armed[k]
            == watchdog.armed[watchdog.armed.len() - 1]);
    }
}

proof fn lemma_all_answered(
    jobs: Seq<Job>,
    watchdog: WatchdogView,
    termination: TerminationView,
    err: ErrorView,
)
    ensures
        ({
            let (replies, left, _) = all_answered(jobs, watchdog, termination, err);
            &&& replies.len() == jobs.len()
            &&& forall|i: int|
                0 <= i < jobs.len() ==> (#[trigger] replies[i]).responder
                    == jobs[i].common.responder && replies[i].body is Value
                    && replies[i].body->Value_0 is Err && (unfired(watchdog, jobs[i])
                    ==> replies[i].body->Value_0 == Err::<JsView, _>(err))
            &&& forall|k: int|
                0 <= k < left.armed.len() ==> watchdog.armed.contains(#[trigger] left.armed[k])
        }),
    decreases jobs.len(),
{
    if jobs.len() > 0 {
        let rest = jobs.drop_last();
        let job = jobs.last();
        lemma_all_answered(rest, watchdog, termination, err);
        let (before, held, told) = all_answered(rest, watchdog, termination, err);
        let (replies, left, _) = all_answered(jobs, watchdog, termination, err);
        if let Some(token) = job.common.watchdog {
            lemma_disarmed_holds_less(held, token.id);
            assert(left == held.disarmed(token.id));
            assert forall|k: int| 0 <= k < left.armed.len() implies watchdog.armed.contains(
                #[trigger] left.armed[k],
            ) by {
                let j = choose|j: int| 0 <= j < held.armed.len() && held.armed[j] == left.armed[k];
                assert(watchdog.armed.contains(held.armed[j]));
            }
            lemma_position_found(held.armed, token.id);
            if unfired(watchdog, job) && has_fired(held, token) {
                let k = position_of(held.armed, token.id)->0;
                assert(watchdog.armed.contains(held.armed[k]));
                let j = choose|j: int|
                    0 <= j < watchdog.armed.len() && watchdog.armed[j] == held.armed[k];
                assert(watchdog.armed[j].id == token.id);
                assert(false);
            }
        }
        assert forall|i: int| 0 <= i < jobs.len() implies (#[trigger] replies[i]).responder
            == jobs[i].common.responder && replies[i].body is Value && replies[i].body->Value_0
            is Err && (unfired(watchdog, jobs[i]) ==> replies[i].body->Value_0 == Err::<
            JsView,
            _,
        >(err)) by {
            if i < rest.len() {
                assert(replies[i] == before[i]);
                assert(jobs[i] == rest[i]);
            }
        }
    }
}

/// However the runtime is terminated, every job in flight is answered exactly once,
/// with an error, and none is left: with the error of the termination, unless a
/// watchdog of the job fired before. Nothing is taken on afterwards, and no function
/// and no parked call is left to be reached.
pub proof fn law_termination_answers_every_job(runner: RunnerView)
    ensures
        ({
            let (after, replies) = aborted(runner);
            let jobs = in_flight(runner);
            &&& replies.len() == jobs.len()
            &&& forall|i: int|
                0 <= i < jobs.len() ==> (#[trigger] replies[i]).responder
                    == jobs[i].common.responder && replies[i].body is Value
                    && replies[i].body->Value_0 is Err && (unfired(runner.watchdog, jobs[i])
                    ==> replies[i].body->Value_0 == Err::<JsView, _>(runner.termination.error()))
            &&& in_flight(after).len() == 0
            &&& rejecting(after.core, after.termination)
            &&& !runner.core.terminated ==> after.core.functions.stored.dom().len() == 0
                && after.core.pending.dom().len() == 0 && !after.termination.latched
        }),
{
    lemma_all_answered(
        in_flight(runner),
        runner.watchdog,
        runner.termination,
        runner.termination.error(),
    );
}

/// The loop never sleeps past the deadline of its active job, and a job that is
/// polled at or past its deadline is answered with a timeout.
pub proof fn law_deadlines_are_kept(runner: RunnerView, now: nat, after: RunnerView, r: Advance)
    requires
        runner.active is Some,
        (runner.active->0).common.deadline is Some,
        advanced(runner, now, after, r),
    ensures
        now + work_wait(runner.active, now) <= (runner.active->0).common.deadline->0@ || is_expired(
            (runner.active->0).common,
            now,
        ),
        is_expired((runner.active->0).common, now) ==> r is Answered && r->Answered_0.view().body
            is Value && r->Answered_0.view().body->Value_0 is Err
            && r->Answered_0.view().body->Value_0->Err_0 is Timeout,
{
}

/// No step of the loop leaves a job waiting while none is active.
pub proof fn law_loop_stays_orderly(
    before: RunnerView,
    token: Option<WatchdogToken>,
    poll: LoopPoll,
    event: JobEvent,
    now: nat,
    after: RunnerView,
    next: StepNext,
    r: Advance,
    told: Reported,
)
    requires
        orderly(before),
    ensures
        step_ended(before, token, poll, now, after, next) ==> orderly(after),
        advanced(before, now, after, r) ==> orderly(after),
        taken_in(before, now, event, after, told) ==> orderly(after),
{
}

} // verus!
