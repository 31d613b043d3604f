//! How a runtime is started, watched and brought to an end.

use crate::commands::RuntimeCommand;
use crate::config::RuntimeConfig;
use crate::core_state::{
    call_error_translated, call_error_view, core_for, elapsed_nanos, gate_opened, gate_wait,
    heap_limits, locals_synced, missing_call_text, op_registered, raised_limit, rejecting,
    stats_collected, timed_out_text, translated, CallError, CoreView, InspectorGate, InspectorWait,
    NEAR_HEAP_LIMIT_MIN_HEADROOM_BYTES,
};
use crate::error::{error_indicates_termination, ErrorView};
use crate::handle::{
    abandoned_text, awaited_as, lost_text, send_refusal, sent_as, unacknowledged_text,
    AwaitedView, HandleView,
};
use crate::ops::PythonOpMode;
use crate::stats::{ActivitySummary, HeapSnapshot, RuntimeStatsSnapshot};
use crate::stream::PyStreamsView;
use crate::stream_laws::ends_with;
use crate::termination::{
    any_due, lemma_position_found, next_deadline, position_of, token_after, DeadlineView,
    TerminationStatus, TerminationView, WatchdogView,
};
use crate::text::{decimal, has_prefix, has_substring, occurs_at};
use crate::time::MAX_NANOS;
use vstd::prelude::*;

verus! {

/// A request to terminate is seen from then on; it changes a running isolate only, and
/// nothing but its status.
pub proof fn law_requests_are_seen(state: TerminationView)
    ensures
        state.requested().is_requested(),
        state.status == TerminationStatus::Running ==> state.requested().status
            == TerminationStatus::Requested,
        state.status != TerminationStatus::Running ==> state.requested() == state,
        state.requested().reason == state.reason,
        state.requested().latched == state.latched,
        state.is_requested() <==> state.status != TerminationStatus::Running,
        !TerminationView::fresh().is_requested(),
        TerminationView::fresh().reason is None,
        !TerminationView::fresh().latched,
        state.terminated().status == TerminationStatus::Terminated,
        state.terminated().is_requested(),
        state.terminated().reason == state.reason,
        state.terminated().latched == state.latched,
{
}

/// The reason that was given first is the one that is told.
pub proof fn law_first_reasons_are_told(
    state: TerminationView,
    first: Seq<char>,
    second: Seq<char>,
)
    requires
        state.reason is None,
    ensures
        state.with_reason(first).with_reason(second).reason == Some(first),
        state.with_reason(first).with_reason(second).error() == ErrorView::Terminated(Some(first)),
        state.error() == ErrorView::Terminated(None),
        state.with_reason(first).status == state.status,
        state.with_reason(first).latched == state.latched,
{
}

/// The engine is stopping from the moment that it was asked to until that is cancelled.
pub proof fn law_stops_are_held_until_cancelled(state: TerminationView)
    ensures
        state.stopping().latched,
        !state.unlatched().latched,
        !state.stopping().unlatched().latched,
        state.stopping().status == state.status && state.unlatched().status == state.status,
        state.stopping().reason == state.reason && state.unlatched().reason == state.reason,
{
}

/// A deadline is armed for the moment that the duration passes, for its reason, under an
/// id of its own; the others stay as they were.
pub proof fn law_deadlines_are_armed_for_their_moment(
    watchdog: WatchdogView,
    now: nat,
    duration: nat,
    reason: Seq<char>,
    i: int,
)
    requires
        now + duration <= MAX_NANOS,
    ensures
        ({
            let after = watchdog.armed_at(now, duration, reason);
            &&& after.armed.len() == watchdog.armed.len() + 1
            &&& after.armed.last().id == watchdog.next_id
            &&& after.armed.last().deadline == now + duration
            &&& after.armed.last().reason == reason
            &&& !after.armed.last().fired
            &&& 0 <= i < watchdog.armed.len() ==> after.armed[i] == watchdog.armed[i]
            &&& after.next_id != watchdog.next_id
            &&& watchdog.next_id < u64::MAX ==> after.next_id == watchdog.next_id + 1
        }),
{
}

/// A deadline fires exactly when its moment has come, and keeps everything else.
pub proof fn law_deadlines_fire_at_their_moment(watchdog: WatchdogView, now: nat, i: int)
    requires
        0 <= i < watchdog.armed.len(),
    ensures
        ({
            let after = watchdog.fired_at(now);
            &&& after.armed.len() == watchdog.armed.len()
            &&& after.armed[i].fired <==> watchdog.armed[i].fired || watchdog.armed[i].deadline
                <= now
            &&& after.armed[i].id == watchdog.armed[i].id
            &&& after.armed[i].deadline == watchdog.armed[i].deadline
            &&& after.armed[i].reason == watchdog.armed[i].reason
            &&& after.next_id == watchdog.next_id
        }),
        !watchdog.armed[i].fired && watchdog.armed[i].deadline <= now ==> any_due(
            watchdog.armed,
            now,
        ),
        any_due(watchdog.armed, now) ==> exists|j: int|
            0 <= j < watchdog.armed.len() && !(#[trigger] watchdog.armed[j]).fired
                && watchdog.armed[j].deadline <= now,
{
    if !watchdog.armed[i].fired && watchdog.armed[i].deadline <= now {
        assert(crate::termination::due(watchdog.armed[i], now));
    }
    if any_due(watchdog.armed, now) {
        let j = choose|j: int|
            0 <= j < watchdog.armed.len() && crate::termination::due(
                #[trigger] watchdog.armed[j],
                now,
            );
        assert(!watchdog.armed[j].fired && watchdog.armed[j].deadline <= now);
    }
}

/// A deadline that is disarmed is gone, and every other one stays.
pub proof fn law_disarming_leaves_the_others(watchdog: WatchdogView, id: u64, i: int)
    requires
        crate::termination::ids_are_distinct(watchdog),
        0 <= i < watchdog.armed.len(),
    ensures
        watchdog.armed[i].id != id ==> watchdog.disarmed(id).armed.contains(watchdog.armed[i]),
        watchdog.armed[i].id == id ==> !watchdog.disarmed(id).armed.contains(watchdog.armed[i])
            && watchdog.disarmed(id).armed.len() == watchdog.armed.len() - 1,
        (forall|j: int| 0 <= j < watchdog.armed.len() ==> (#[trigger] watchdog.armed[j]).id != id)
            ==> watchdog.disarmed(id) == watchdog,
        watchdog.disarmed(id).next_id == watchdog.next_id,
{
    let armed = watchdog.armed;
    let after = watchdog.disarmed(id).armed;
    lemma_position_found(armed, id);
    let n = armed.len() - 1;
    match position_of(armed, id) {
        None => {
            assert(after[i] == armed[i]);
        },
        Some(at) => {
            if armed[i].id != id {
                if i < n {
                    assert(after[i] == armed[i]);
                } else {
                    assert(at != i);
                    assert(after[at] == armed[n]);
                }
            } else {
                assert(at == i) by {
                    if at < i {
                        assert(armed[at].id != armed[i].id);
                    } else if i < at {
                        assert(armed[i].id != armed[at].id);
                    }
                }
                if after.contains(armed[i]) {
                    let k = choose|k: int| 0 <= k < after.len() && after[k] == armed[i];
                    if k == at && at != n {
                        assert(after[k] == armed[n]);
                        assert(armed[at].id != armed[n].id);
                    } else {
                        assert(after[k] == armed[k]);
                        if k < i {
                            assert(armed[k].id != armed[i].id);
                        } else {
                            assert(armed[i].id != armed[k].id);
                        }
                    }
                }
            }
        },
    }
}

/// The watchdog wakes for the earliest deadline that did not fire yet.
pub proof fn law_next_deadline_is_earliest(armed: Seq<DeadlineView>)
    ensures
        next_deadline(armed) is None <==> forall|i: int|
            0 <= i < armed.len() ==> (#[trigger] armed[i]).fired,
        next_deadline(armed) is Some ==> exists|i: int|
            0 <= i < armed.len() && !(#[trigger] armed[i]).fired && armed[i].deadline
                == next_deadline(armed)->0,
        forall|i: int|
            0 <= i < armed.len() && !(#[trigger] armed[i]).fired ==> next_deadline(armed) is Some
                && next_deadline(armed)->0 <= armed[i].deadline,
    decreases armed.len(),
{
    if armed.len() > 0 {
        let rest = armed.drop_last();
        let n = armed.len() - 1;
        law_next_deadline_is_earliest(rest);
        assert forall|i: int| 0 <= i < n implies #[trigger] armed[i] == rest[i] by {}
        assert(armed[n] == armed.last());
        if next_deadline(rest) is Some {
            let i = choose|i: int|
                0 <= i < rest.len() && !(#[trigger] rest[i]).fired && rest[i].deadline
                    == next_deadline(rest)->0;
            assert(!armed[i].fired && armed[i].deadline == next_deadline(rest)->0);
        }
        if next_deadline(armed) is None {
            assert forall|i: int| 0 <= i < armed.len() implies (#[trigger] armed[i]).fired by {
                if i < n {
                    assert(rest[i].fired);
                }
            }
        } else if forall|i: int| 0 <= i < armed.len() ==> (#[trigger] armed[i]).fired {
            assert forall|i: int| 0 <= i < rest.len() implies (#[trigger] rest[i]).fired by {
                assert(armed[i].fired);
            }
        }
    }
}

/// An error that tells of a termination, in a runtime that is to terminate, is answered
/// with the reason of the termination and ends the runtime; every other error is
/// answered as it is and changes nothing.
pub proof fn law_errors_of_a_termination_are_told_as_one(
    core: CoreView,
    termination: TerminationView,
    err: ErrorView,
)
    ensures
        (core.terminated || termination.status != TerminationStatus::Running)
            && error_indicates_termination(err) ==> translated(core, termination, err).2
            == ErrorView::Terminated(termination.reason) && translated(
            core,
            termination,
            err,
        ).0.terminated && rejecting(
            translated(core, termination, err).0,
            translated(core, termination, err).1,
        ),
        !error_indicates_termination(err) ==> translated(core, termination, err) == (
            core,
            termination,
            err,
        ),
        !core.terminated && termination.status == TerminationStatus::Running ==> translated(
            core,
            termination,
            err,
        ) == (core, termination, err),
        rejecting(core, termination) <==> core.terminated || termination.status
            != TerminationStatus::Running,
{
}

/// A call that failed is answered with what it failed of: an error of the runtime as it
/// is, an exception with its details, and a call that the engine stopped in words that
/// tell of a termination.
pub proof fn law_failed_calls_tell_why(
    core: CoreView,
    termination: TerminationView,
    err: CallError,
)
    requires
        !core.terminated,
        termination.status == TerminationStatus::Running,
    ensures
        err is Runtime ==> call_error_translated(core, termination, err).2 == err->Runtime_0@,
        err is Js ==> call_error_translated(core, termination, err).2 == ErrorView::JavaScript(
            err->Js_0@,
        ),
        err is Terminated ==> call_error_translated(core, termination, err).2 is JavaScript
            && error_indicates_termination(call_error_translated(core, termination, err).2),
        call_error_translated(core, termination, err).0 == core,
        call_error_translated(core, termination, err).1 == termination,
        err is Runtime ==> call_error_view(err) == err->Runtime_0@,
{
    reveal_strlit("execution terminated");
    reveal_strlit("Error: execution terminated");
    let text = "Error: execution terminated"@;
    let words = "execution terminated"@;
    assert(text.subrange(7, 27) =~= words);
    assert(occurs_at(text, words, 7));
}

/// A debugger is waited for once: with a break where one was asked for, otherwise for a
/// session where one was asked for, and not at all where nothing was.
pub proof fn law_debuggers_are_waited_for_as_configured(gate: InspectorGate)
    ensures
        gate_wait(None) == InspectorWait::Nothing,
        gate_wait(Some(gate)) == InspectorWait::SessionAndBreak <==> !gate.has_waited
            && gate.break_on_next_statement,
        gate_wait(Some(gate)) == InspectorWait::Session <==> !gate.has_waited
            && !gate.break_on_next_statement && gate.wait_for_connection,
        gate_wait(gate_opened(Some(gate))) == InspectorWait::Nothing,
        gate_opened(None) is None,
        gate_opened(Some(gate)) is Some,
        gate_opened(Some(gate))->0.wait_for_connection == gate.wait_for_connection,
        gate_opened(Some(gate))->0.break_on_next_statement == gate.break_on_next_statement,
{
}

/// Heap sizes are taken as they are: both, or the maximal one alone; an initial size
/// without a maximal one, or above it, is refused.
pub proof fn law_heap_sizes_are_checked(initial: Option<usize>, max: Option<usize>)
    ensures
        heap_limits(initial, max) is Err <==> initial is Some && (max is None || initial->0
            > max->0),
        initial is None && max is None ==> heap_limits(initial, max) == Ok::<
            Option<(usize, usize)>,
            Seq<char>,
        >(None),
        heap_limits(initial, max) is Ok && max is Some ==> heap_limits(initial, max)->Ok_0 is Some
            && (heap_limits(initial, max)->Ok_0->0).1 == max->0 && (heap_limits(
            initial,
            max,
        )->Ok_0->0).0 == (if initial is Some {
            initial->0
        } else {
            0
        }),
{
}

/// The heap limit is raised by the largest of the initial heap, an eighth of the
/// configured one and the least headroom.
pub proof fn law_headroom_is_the_largest_of_three(
    current: usize,
    initial: usize,
    configured: usize,
)
    requires
        current + initial <= usize::MAX,
        current + configured <= usize::MAX,
        current + NEAR_HEAP_LIMIT_MIN_HEADROOM_BYTES <= usize::MAX,
    ensures
        ({
            let headroom = raised_limit(current, initial, configured) - current;
            let eighth = configured as int / 8;
            &&& headroom >= initial && headroom >= eighth && headroom >= 1_048_576
            &&& headroom == initial || headroom == eighth || headroom == 1_048_576
        }),
{
}

/// A runtime starts with the timeout, limits and inspector that were configured, and
/// with nothing registered, stored, parked or counted.
pub proof fn law_runtimes_start_as_configured(config: RuntimeConfig, id: u64, n: u32, i: int)
    ensures
        ({
            let core = core_for(config);
            &&& core.execution_timeout is Some <==> config.execution_timeout is Some
            &&& config.execution_timeout is Some ==> core.execution_timeout->0
                == config.execution_timeout->0@
            &&& core.limits.max_depth == config.max_serialization_depth
            &&& core.limits.max_bytes == config.max_serialization_bytes
            &&& core.inspector is Some <==> config.inspector is Some
            &&& config.inspector is Some ==> core.inspector->0.wait_for_connection
                == config.inspector->0.wait_for_connection
                && core.inspector->0.break_on_next_statement
                == config.inspector->0.break_on_next_statement && !core.inspector->0.has_waited
            &&& !core.terminated
            &&& !core.ops.handlers.contains_key(id) && !core.ops.exposed.contains(id)
            &&& !core.functions.stored.contains_key(n) && !core.streams.entries.contains_key(n)
            &&& !core.pending.contains_key(id)
            &&& core.task_locals is None && core.op_task_locals is None
            &&& core.loader.resolver is None && core.loader.loader is None
                && core.loader.task_locals is None
            &&& core.stats.total == 0 && core.stats.last is None && core.stats.last_kind is None
            &&& core.stats.counters.len() == 6
            &&& 0 <= i < 6 ==> core.stats.counters[i] == 0
            &&& core.streams.active == 0 && core.streams.total == 0 && core.streams.bytes == 0
        }),
{
}

/// The loader awaits with the task locals that are current, and keeps those it has where
/// none are.
pub proof fn law_loaders_have_the_current_task_locals(core: CoreView)
    ensures
        core.task_locals is Some ==> locals_synced(core).loader.task_locals == core.task_locals,
        core.task_locals is None ==> locals_synced(core) == core,
        locals_synced(core).loader.modules == core.loader.modules,
        locals_synced(core).loader.resolver == core.loader.resolver,
        locals_synced(core).loader.loader == core.loader.loader,
        locals_synced(core).task_locals == core.task_locals,
        locals_synced(core).ops == core.ops,
{
}

/// An op that was registered is kept under a token that nothing had, with its name, mode
/// and handler; it is not exposed by that, and nothing else changes.
pub proof fn law_registered_ops_are_kept(
    before: CoreView,
    name: Seq<char>,
    mode: PythonOpMode,
    handler: u64,
    after: CoreView,
    result: Result<u64, ErrorView>,
    other: u64,
)
    requires
        op_registered(before, name, mode, handler, after, result),
    ensures
        result is Ok ==> {
            let id = result->Ok_0;
            &&& !before.ops.handlers.contains_key(id)
            &&& after.ops.handlers.contains_key(id)
            &&& after.ops.handlers[id].id == id
            &&& after.ops.handlers[id].name@ == name
            &&& after.ops.handlers[id].mode == mode
            &&& after.ops.handlers[id].handler == handler
            &&& after.ops.exposed == before.ops.exposed
            &&& other != id ==> after.ops.handlers.contains_key(other)
                == before.ops.handlers.contains_key(other) && after.ops.handlers[other]
                == before.ops.handlers[other]
            &&& after.functions == before.functions && after.streams == before.streams
                && after.pending == before.pending && after.loader == before.loader
        },
        result is Err ==> after == before,
{
}

/// Every figure that is reported is the one that was counted under its name.
pub proof fn law_figures_are_those_that_were_counted(
    core: CoreView,
    heap: HeapSnapshot,
    activity: ActivitySummary,
    py: PyStreamsView,
    s: RuntimeStatsSnapshot,
)
    requires
        stats_collected(core, heap, activity, py, s),
    ensures
        s.heap_total_bytes == heap.heap_total_bytes,
        s.heap_used_bytes == heap.heap_used_bytes,
        s.external_memory_bytes == heap.external_memory_bytes,
        s.physical_total_bytes == heap.physical_total_bytes,
        core.stats.total / 1_000_000 <= u64::MAX ==> s.total_execution_time_ms == core.stats.total
            / 1_000_000,
        core.stats.last is Some && core.stats.last->0 / 1_000_000 <= u64::MAX
            ==> s.last_execution_time_ms == core.stats.last->0 / 1_000_000,
        core.stats.last is None ==> s.last_execution_time_ms == 0,
        s.last_execution_kind == core.stats.last_kind,
        s.eval_sync_count == core.stats.counters[0],
        s.eval_async_count == core.stats.counters[1],
        s.eval_module_sync_count == core.stats.counters[2],
        s.eval_module_async_count == core.stats.counters[3],
        s.call_function_async_count == core.stats.counters[4],
        s.call_function_sync_count == core.stats.counters[5],
        s.active_async_ops == activity.active_async_ops,
        s.open_resources == activity.open_resources,
        s.active_timers == activity.active_timers,
        s.active_intervals == activity.active_intervals,
        s.active_js_streams == core.streams.active,
        s.active_py_streams == py.active,
        s.total_js_streams == core.streams.total,
        s.total_py_streams == py.total,
        s.bytes_streamed_js_to_py == core.streams.bytes,
        s.bytes_streamed_py_to_js == py.bytes,
{
}

/// Time passes from the start to now, and never backwards.
pub proof fn law_time_passes_forwards(start: nat, now: nat)
    ensures
        now >= start ==> elapsed_nanos(start, now) + start == now,
        now < start ==> elapsed_nanos(start, now) == 0,
{
}

/// A timeout names what timed out and the milliseconds it had; a parked call that is not
/// there is named by its id.
pub proof fn law_timeouts_name_what_timed_out(context: Seq<char>, nanos: nat, call_id: u64)
    ensures
        has_prefix(timed_out_text(context, nanos), context),
        ends_with(timed_out_text(context, nanos), decimal(nanos / 1_000_000) + "ms"@),
        has_substring(missing_call_text(call_id), decimal(call_id as nat)),
{
    let text = timed_out_text(context, nanos);
    assert(text.subrange(0, context.len() as int) =~= context);
    let end = decimal(nanos / 1_000_000) + "ms"@;
    assert(text.subrange(text.len() - end.len(), text.len() as int) =~= end);
    let missing = missing_call_text(call_id);
    let digits = decimal(call_id as nat);
    let at = "Pending function call "@.len() as int;
    assert(missing.subrange(at, at + digits.len()) =~= digits);
    assert(occurs_at(missing, digits, at));
}

/// A command may be sent exactly if the handle is connected, the runtime was not shut
/// down, and no termination was requested; a termination is told before anything else.
pub proof fn law_commands_are_sent_to_live_runtimes(
    connected: bool,
    state: HandleView,
    termination: TerminationView,
)
    ensures
        send_refusal(connected, state, termination) is None <==> connected && !state.shutdown
            && termination.status == TerminationStatus::Running,
        termination.status != TerminationStatus::Running ==> send_refusal(
            connected,
            state,
            termination,
        ) == Some(ErrorView::Terminated(termination.reason)),
        termination.status == TerminationStatus::Running && (state.shutdown || !connected)
            ==> send_refusal(connected, state, termination) is Some && send_refusal(
            connected,
            state,
            termination,
        )->0 is Internal,
{
}

/// The kinds of commands, told apart by a number.
pub open spec fn command_kind(cmd: RuntimeCommand) -> int {
    match cmd {
        RuntimeCommand::Eval { .. } => 0,
        RuntimeCommand::EvalAsync { .. } => 1,
        RuntimeCommand::EvalModule { .. } => 2,
        RuntimeCommand::EvalModuleAsync { .. } => 3,
        RuntimeCommand::RegisterPythonOp { .. } => 4,
        RuntimeCommand::SetPythonOpExposure { .. } => 5,
        RuntimeCommand::SetModuleResolver { .. } => 6,
        RuntimeCommand::SetModuleLoader { .. } => 7,
        RuntimeCommand::AddStaticModule { .. } => 8,
        RuntimeCommand::BindObject { .. } => 9,
        RuntimeCommand::CallFunctionSync { .. } => 10,
        RuntimeCommand::CallFunctionAsync { .. } => 11,
        RuntimeCommand::ResumeFunctionCall { .. } => 12,
        RuntimeCommand::ReleaseFunction { .. } => 13,
        RuntimeCommand::StreamRead { .. } => 14,
        RuntimeCommand::StreamRelease { .. } => 15,
        RuntimeCommand::StreamCancel { .. } => 16,
        RuntimeCommand::GetStats { .. } => 17,
        RuntimeCommand::Terminate { .. } => 18,
        RuntimeCommand::Shutdown { .. } => 19,
    }
}

/// A command that could not be sent is named by its own name.
pub proof fn law_commands_have_names_of_their_own(cmd: RuntimeCommand, other: RuntimeCommand)
    ensures
        sent_as(cmd) == sent_as(other) ==> command_kind(cmd) == command_kind(other),
{
    reveal_strlit("eval");
    reveal_strlit("eval_async");
    reveal_strlit("eval_module");
    reveal_strlit("eval_module_async");
    reveal_strlit("register_op");
    reveal_strlit("op exposure");
    reveal_strlit("set_module_resolver");
    reveal_strlit("set_module_loader");
    reveal_strlit("add_static_module");
    reveal_strlit("bind_object");
    reveal_strlit("call_function_sync");
    reveal_strlit("call_function");
    reveal_strlit("resume_function_call");
    reveal_strlit("release_function");
    reveal_strlit("stream_read");
    reveal_strlit("stream_release");
    reveal_strlit("stream_cancel");
    reveal_strlit("get_stats");
    reveal_strlit("terminate");
    reveal_strlit("shutdown");
    assert("eval"@.len() == 4);
    assert("eval_async"@.len() == 10);
    assert("eval_module"@.len() == 11);
    assert("eval_module_async"@.len() == 17);
    assert("register_op"@.len() == 11);
    assert("op exposure"@.len() == 11);
    assert("set_module_resolver"@.len() == 19);
    assert("set_module_loader"@.len() == 17);
    assert("add_static_module"@.len() == 17);
    assert("bind_object"@.len() == 11);
    assert("call_function_sync"@.len() == 18);
    assert("call_function"@.len() == 13);
    assert("resume_function_call"@.len() == 20);
    assert("release_function"@.len() == 16);
    assert("stream_read"@.len() == 11);
    assert("stream_release"@.len() == 14);
    assert("stream_cancel"@.len() == 13);
    assert("get_stats"@.len() == 9);
    assert("terminate"@.len() == 9);
    assert("shutdown"@.len() == 8);
    assert("eval_module"@[0] != "register_op"@[0]);
    assert("eval_module"@[0] != "op exposure"@[0]);
    assert("eval_module"@[0] != "bind_object"@[0]);
    assert("eval_module"@[0] != "stream_read"@[0]);
    assert("register_op"@[0] != "op exposure"@[0]);
    assert("register_op"@[0] != "bind_object"@[0]);
    assert("register_op"@[0] != "stream_read"@[0]);
    assert("op exposure"@[0] != "bind_object"@[0]);
    assert("op exposure"@[0] != "stream_read"@[0]);
    assert("bind_object"@[0] != "stream_read"@[0]);
    assert("eval_module_async"@[0] != "set_module_loader"@[0]);
    assert("eval_module_async"@[0] != "add_static_module"@[0]);
    assert("set_module_loader"@[0] != "add_static_module"@[0]);
    assert("call_function"@[0] != "stream_cancel"@[0]);
    assert("get_stats"@[0] != "terminate"@[0]);
}

/// The answer to a command that may be abandoned is waited for in slices. What is awaited
/// by an event loop, and the end of a runtime, are waited for without an end.
pub proof fn law_blocking_callers_can_give_up(cmd: RuntimeCommand, other: RuntimeCommand)
    ensures
        awaited_as(cmd) is Plain <==> cmd is EvalAsync || cmd is EvalModuleAsync
            || cmd is CallFunctionAsync || cmd is ResumeFunctionCall || cmd is ReleaseFunction
            || cmd is StreamRead || cmd is SetPythonOpExposure || cmd is Shutdown,
        awaited_as(cmd) == awaited_as(other) ==> command_kind(cmd) == command_kind(other),
{
    lemma_escalating_names();
    lemma_plain_names();
}

proof fn lemma_escalating_names()
    ensures
        forall|cmd: RuntimeCommand, other: RuntimeCommand|
            #![trigger awaited_as(cmd), awaited_as(other)]
            awaited_as(cmd) == awaited_as(other) && awaited_as(cmd) is Escalating ==> command_kind(
                cmd,
            ) == command_kind(other),
{
    reveal_strlit("eval");
    reveal_strlit("eval_module");
    reveal_strlit("op registration");
    reveal_strlit("set_module_resolver");
    reveal_strlit("set_module_loader");
    reveal_strlit("add_static_module");
    reveal_strlit("bind_object");
    reveal_strlit("function call");
    reveal_strlit("stream_release");
    reveal_strlit("stream_cancel");
    reveal_strlit("stats");
    reveal_strlit("terminate confirmation");
    assert("eval"@.len() == 4);
    assert("eval_module"@.len() == 11);
    assert("op registration"@.len() == 15);
    assert("set_module_resolver"@.len() == 19);
    assert("set_module_loader"@.len() == 17);
    assert("add_static_module"@.len() == 17);
    assert("bind_object"@.len() == 11);
    assert("function call"@.len() == 13);
    assert("stream_release"@.len() == 14);
    assert("stream_cancel"@.len() == 13);
    assert("stats"@.len() == 5);
    assert("terminate confirmation"@.len() == 22);
    assert("eval_module"@[0] != "bind_object"@[0]);
    assert("set_module_loader"@[0] != "add_static_module"@[0]);
    assert("function call"@[0] != "stream_cancel"@[0]);
}

proof fn lemma_plain_names()
    ensures
        forall|cmd: RuntimeCommand, other: RuntimeCommand|
            #![trigger awaited_as(cmd), awaited_as(other)]
            awaited_as(cmd) == awaited_as(other) && awaited_as(cmd) is Plain ==> command_kind(cmd)
                == command_kind(other),
{
    reveal_strlit("Failed to receive async eval result");
    reveal_strlit("Failed to receive async eval_module result");
    reveal_strlit("Failed to receive op exposure result");
    reveal_strlit("Failed to receive function call result");
    reveal_strlit("Failed to receive resumed function call result");
    reveal_strlit("Failed to receive release result");
    reveal_strlit("Failed to receive stream chunk");
    reveal_strlit("Failed to confirm runtime shutdown");
    assert("Failed to receive async eval result"@.len() == 35);
    assert("Failed to receive async eval_module result"@.len() == 42);
    assert("Failed to receive op exposure result"@.len() == 36);
    assert("Failed to receive function call result"@.len() == 38);
    assert("Failed to receive resumed function call result"@.len() == 46);
    assert("Failed to receive release result"@.len() == 32);
    assert("Failed to receive stream chunk"@.len() == 30);
    assert("Failed to confirm runtime shutdown"@.len() == 34);
}

/// An answer that never comes is named by what was waited for.
pub proof fn law_lost_answers_are_named(what: Seq<char>, grace: Seq<char>)
    ensures
        has_substring(lost_text(AwaitedView::Escalating(what)), what),
        lost_text(AwaitedView::Plain(what)) == what,
        has_substring(abandoned_text(grace, what), what),
        has_substring(abandoned_text(grace, what), grace),
        has_substring(unacknowledged_text(grace), grace),
{
    let lost = lost_text(AwaitedView::Escalating(what));
    let at = "Failed to receive "@.len() as int;
    assert(lost.subrange(at, at + what.len()) =~= what);
    assert(occurs_at(lost, what, at));
    let text = abandoned_text(grace, what);
    let first = "Runtime did not acknowledge termination within "@.len() as int;
    assert(text.subrange(first, first + grace.len()) =~= grace);
    assert(occurs_at(text, grace, first));
    let second = ("Runtime did not acknowledge termination within "@ + grace
        + " and was force-killed during "@).len() as int;
    assert(text.subrange(second, second + what.len()) =~= what);
    assert(occurs_at(text, what, second));
    let other = unacknowledged_text(grace);
    let third = "Runtime did not acknowledge an in-progress termination within "@.len() as int;
    assert(other.subrange(third, third + grace.len()) =~= grace);
    assert(occurs_at(other, grace, third));
}

/// The id after an id is another one.
pub proof fn law_ids_move_on(id: u64)
    ensures
        token_after(id) != id,
        id < u64::MAX ==> token_after(id) == id + 1,
{
}

} // verus!
