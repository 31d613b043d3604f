//! What each operation leaves as it was.

use crate::commands::{
    call_answered, entry_finished, handled, EntryOutcome, Handled, Reply, RuntimeCommand, TaskClock,
};
use crate::core_state::{
    finalized, termination_finalized, CallClock, CallOutcome, CoreView, Returned,
};
use crate::dispatcher::{advanced, taken_in, Advance, Reported, RunnerView};
use crate::error::RuntimeResult;
use crate::job_laws::is_running;
use crate::jobs::JobEvent;
use crate::js_value::JSValue;
use crate::stats::RuntimeCallKind;
use crate::termination::{TerminationStatus, TerminationView};
use crate::time::Duration;
use vstd::prelude::*;

verus! {

/// Everything that guest code and Python have of the runtime is as it was: ops,
/// functions, streams, parked calls, modules and settings.
pub open spec fn same_holdings(before: CoreView, after: CoreView) -> bool {
    &&& after.ops == before.ops
    &&& after.functions == before.functions
    &&& after.streams == before.streams
    &&& after.pending == before.pending
    &&& after.next_call == before.next_call
    &&& after.loader.modules == before.loader.modules
    &&& after.loader.resolver == before.loader.resolver
    &&& after.loader.loader == before.loader.loader
    &&& after.limits == before.limits
    &&& after.execution_timeout == before.execution_timeout
    &&& after.inspector == before.inspector
    &&& after.terminated == before.terminated
}

/// A termination lets go of functions and parked calls, and of nothing else: ops, streams,
/// modules, figures and settings stay; and its reason stays.
pub proof fn law_terminations_keep_the_rest(core: CoreView, termination: TerminationView)
    ensures
        finalized(core).ops == core.ops,
        finalized(core).streams == core.streams,
        finalized(core).loader == core.loader,
        finalized(core).limits == core.limits,
        finalized(core).stats == core.stats,
        finalized(core).execution_timeout == core.execution_timeout,
        finalized(core).inspector == core.inspector,
        finalized(core).functions.next_id == core.functions.next_id,
        finalized(core).terminated,
        termination_finalized(core, termination).reason == termination.reason,
        !core.terminated ==> termination_finalized(core, termination).status
            == TerminationStatus::Terminated,
        core.terminated ==> termination_finalized(core, termination) == termination,
{
}

/// A script or module that ended changes nothing but the figures and the watchdog, in a
/// runtime that was not asked to terminate.
pub proof fn law_ended_scripts_leave_the_rest(
    before: RunnerView,
    clock: TaskClock,
    kind: RuntimeCallKind,
    context: Seq<char>,
    now: nat,
    outcome: EntryOutcome,
)
    requires
        is_running(before.core, before.termination),
    ensures
        ({
            let after = entry_finished(before, clock, kind, context, now, outcome).0;
            &&& same_holdings(before.core, after.core)
            &&& after.core.task_locals == before.core.task_locals
            &&& after.core.loader == before.core.loader
            &&& after.termination.status == before.termination.status
            &&& after.termination.reason == before.termination.reason
            &&& after.active == before.active
            &&& after.pending == before.pending
            &&& after.fresh == before.fresh
        }),
{
}

/// A call that returned a value changes nothing but the figures and the watchdog; one
/// that returned a promise parks it, and changes nothing else.
pub proof fn law_ended_calls_leave_the_rest(
    before: RunnerView,
    clock: TaskClock,
    call: CallClock,
    now: nat,
    value: RuntimeResult<JSValue>,
    promise: u64,
    after: RunnerView,
    reply: Reply,
)
    ensures
        call_answered(
            before,
            clock,
            call,
            now,
            CallOutcome::Returned(Returned::Value(value)),
            after,
            reply.view(),
        ) ==> same_holdings(before.core, after.core) && after.fresh == before.fresh,
        call_answered(
            before,
            clock,
            call,
            now,
            CallOutcome::Returned(Returned::Promise { promise }),
            after,
            reply.view(),
        ) ==> same_holdings(
            before.core,
            CoreView {
                pending: before.core.pending,
                next_call: before.core.next_call,
                ..after.core
            },
        ),
{
}

/// Work of a job that goes on, is fulfilled, rejected or read changes nothing that guest
/// code or Python hold, in a runtime that was not asked to terminate.
pub proof fn law_reports_leave_the_rest(
    before: RunnerView,
    now: nat,
    event: JobEvent,
    after: RunnerView,
    told: Reported,
)
    requires
        is_running(before.core, before.termination),
        before.active is Some,
        !((before.active->0).body is StreamRead),
        taken_in(before, now, event, after, told),
    ensures
        same_holdings(before.core, after.core),
        after.termination.status == before.termination.status,
        after.termination.reason == before.termination.reason,
        told is Pending ==> after.core == before.core && after.watchdog == before.watchdog
            && after.pending == before.pending && (after.active->0).common
            == (before.active->0).common && (after.active->0).body == (before.active->0).body,
{
}

/// A job that is started, or looked at, publishes its task locals and changes nothing that
/// guest code or Python hold.
pub proof fn law_polls_leave_the_rest(before: RunnerView, now: nat, after: RunnerView, r: Advance)
    requires
        before.active is Some,
        advanced(before, now, after, r),
    ensures
        same_holdings(before.core, after.core),
        after.termination.status == before.termination.status,
        r is Perform ==> after.watchdog == before.watchdog && after.pending == before.pending
            && after.fresh == before.fresh && after.active == before.active && after.termination
            == before.termination && after.core.stats == before.core.stats,
{
}

/// A command that registers, exposes, sets or releases something changes that, and
/// nothing else.
pub proof fn law_commands_leave_the_rest(
    before: RunnerView,
    now: Duration,
    cmd: RuntimeCommand,
    after: RunnerView,
    r: Handled,
)
    requires
        is_running(before.core, before.termination),
        cmd is RegisterPythonOp || cmd is SetPythonOpExposure || cmd is SetModuleResolver
            || cmd is SetModuleLoader || cmd is AddStaticModule || cmd is ReleaseFunction
            || cmd is StreamRelease,
        handled(before, now, cmd, after, r),
    ensures
        after.watchdog == before.watchdog,
        after.termination == before.termination,
        after.active == before.active,
        after.pending == before.pending,
        after.fresh == before.fresh,
        after.core.pending == before.core.pending,
        after.core.next_call == before.core.next_call,
        after.core.stats == before.core.stats,
        after.core.limits == before.core.limits,
        after.core.execution_timeout == before.core.execution_timeout,
        after.core.inspector == before.core.inspector,
        after.core.terminated == before.core.terminated,
        after.core.task_locals == before.core.task_locals,
        after.core.op_task_locals == before.core.op_task_locals,
        !(cmd is RegisterPythonOp || cmd is SetPythonOpExposure) ==> after.core.ops
            == before.core.ops,
        !(cmd is SetModuleResolver || cmd is SetModuleLoader || cmd is AddStaticModule)
            ==> after.core.loader == before.core.loader,
        !(cmd is ReleaseFunction) ==> after.core.functions == before.core.functions,
        !(cmd is StreamRelease) ==> after.core.streams == before.core.streams,
{
}

} // verus!
