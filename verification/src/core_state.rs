//! `RuntimeCoreState`: what lives beside the isolate on the runtime thread.
//!
//! The isolate itself is driven from outside. This state is told what came of each
//! engine operation and decides what the caller is answered. Times are spans since
//! one origin.

use crate::config::RuntimeConfig;
use crate::error::{
    err_view, error_indicates_termination, js_error_indicates_termination,
    runtime_error_indicates_termination, DetailsView, ErrorView, JsExceptionDetails,
    RuntimeError, RuntimeResult,
};
use crate::functions::{FunctionTable, FunctionsView};
use crate::js_value::{lemma_view, JSValue, JsView};
use crate::limits::SerializationLimits;
use crate::loader::{LoaderView, PythonModuleLoader};
use crate::ops::{is_token, OpToken, OpsView, PythonOpEntry, PythonOpMode, PythonOpRegistry};
use crate::startup::{
    no_token, no_token_error, script_views, scripts_made, startup_scripts, StartupScript,
};
use crate::stats::{
    span_ms, ActivitySummary, HeapSnapshot, RuntimeCallKind, RuntimeStatsSnapshot,
    RuntimeStatsState, StatsView,
};
use crate::stream::{JsStreamEntry, JsStreamRegistry, JsStreamsView, PyStreamRegistry, StreamStatsSnapshot};
use crate::termination::{
    position_of, TerminationController, TerminationView, Watchdog, WatchdogToken, WatchdogView,
};
use crate::text::{decimal, decimal_string, join3, push_wide_decimal};
use crate::time::{saturating_span, Duration};
use crate::v8_export::{missing_function, missing_function_text};
use std::collections::HashMap;
use vstd::prelude::*;

verus! {

broadcast use {lemma_view, vstd::std_specs::hash::group_hash_axioms};

/// Minimum heap headroom granted when the engine nears its limit, so it can unwind
/// with an exception instead of aborting the process (1 MiB).
pub const NEAR_HEAP_LIMIT_MIN_HEADROOM_BYTES: usize = 1_048_576;

/// A JS promise returned by a sync function call, parked until resumed.
#[derive(Clone, Copy, Debug)]
pub struct PendingFunctionCall {
    /// The slot of the promise's handle.
    pub promise: u64,
    pub start_time: Duration,
    pub deadline: Option<Duration>,
    pub timeout_ms: Option<u64>,
}

/// Whether the runtime waits for a debugger before it executes code.
#[derive(Clone, Copy, Debug, PartialEq, Eq, Structural)]
pub struct InspectorGate {
    pub wait_for_connection: bool,
    pub break_on_next_statement: bool,
    pub has_waited: bool,
}

/// What to wait for before code is executed.
#[derive(Clone, Copy, Debug, PartialEq, Eq, Structural)]
pub enum InspectorWait {
    Nothing,
    Session,
    SessionAndBreak,
}

/// What a gate asks to wait for: once, and a break rather than a plain session.
pub open spec fn gate_wait(gate: Option<InspectorGate>) -> InspectorWait {
    match gate {
        None => InspectorWait::Nothing,
        Some(g) => if g.has_waited {
            InspectorWait::Nothing
        } else if g.break_on_next_statement {
            InspectorWait::SessionAndBreak
        } else if g.wait_for_connection {
            InspectorWait::Session
        } else {
            InspectorWait::Nothing
        },
    }
}

/// Afterwards there is nothing more to wait for.
pub open spec fn gate_opened(gate: Option<InspectorGate>) -> Option<InspectorGate> {
    match gate {
        None => None,
        Some(g) => Some(InspectorGate { has_waited: true, ..g }),
    }
}

/// What a `RuntimeCoreState` holds.
#[verifier::ext_equal]
pub struct CoreView {
    pub ops: OpsView,
    pub loader: LoaderView,
    pub task_locals: Option<u64>,
    /// The task locals that async ops await with.
    pub op_task_locals: Option<u64>,
    pub execution_timeout: Option<nat>,
    pub functions: FunctionsView,
    pub limits: SerializationLimits,
    pub streams: JsStreamsView,
    pub pending: Map<u64, PendingFunctionCall>,
    pub next_call: u64,
    pub stats: StatsView,
    pub terminated: bool,
    pub inspector: Option<InspectorGate>,
}

/// No new work is taken on.
pub open spec fn rejecting(core: CoreView, termination: TerminationView) -> bool {
    core.terminated || termination.is_requested()
}

/// The state after the termination was finalized; a second time changes nothing.
pub open spec fn finalized(core: CoreView) -> CoreView {
    if core.terminated {
        core
    } else {
        CoreView {
            functions: core.functions.cleared(),
            pending: Map::empty(),
            terminated: true,
            ..core
        }
    }
}

/// The termination state after it was finalized.
pub open spec fn termination_finalized(core: CoreView, termination: TerminationView) -> TerminationView {
    if core.terminated {
        termination
    } else {
        termination.unlatched().terminated()
    }
}

/// An engine error as the caller sees it: one that says execution was terminated
/// finalizes a termination that was requested and becomes its error.
pub open spec fn translated(core: CoreView, termination: TerminationView, err: ErrorView) -> (
    CoreView,
    TerminationView,
    ErrorView,
) {
    if rejecting(core, termination) && error_indicates_termination(err) {
        (finalized(core), termination_finalized(core, termination), termination.error())
    } else {
        (core, termination, err)
    }
}

/// How an exception of a call that was stopped mid-flight is named.
pub open spec fn terminated_call_details() -> DetailsView {
    DetailsView {
        name: Some("Error"@),
        message: Some("execution terminated"@),
        stack: Some("Error: execution terminated"@),
        frames: Seq::empty(),
        summary: "Error: execution terminated"@,
    }
}

/// Why a call into a stored function produced no value.
#[derive(Debug)]
pub enum CallError {
    Runtime(RuntimeError),
    Js(JsExceptionDetails),
    /// The engine terminated the call.
    Terminated,
}

/// The error that a call error stands for before it is translated.
pub open spec fn call_error_view(err: CallError) -> ErrorView {
    match err {
        CallError::Runtime(e) => e@,
        CallError::Js(details) => ErrorView::JavaScript(details@),
        CallError::Terminated => ErrorView::JavaScript(terminated_call_details()),
    }
}

/// A call error as the caller sees it; a runtime error is passed on as it is.
pub open spec fn call_error_translated(
    core: CoreView,
    termination: TerminationView,
    err: CallError,
) -> (CoreView, TerminationView, ErrorView) {
    match err {
        CallError::Runtime(e) => (core, termination, e@),
        _ => translated(core, termination, call_error_view(err)),
    }
}

/// Turns a failed call into its error: terminated, threw, or failed without an
/// exception.
pub fn caught_call_error(terminated: bool, exception: Option<JsExceptionDetails>) -> (err:
    CallError)
    ensures
        match err {
            CallError::Terminated => terminated,
            CallError::Js(details) => !terminated && exception == Some(details),
            CallError::Runtime(e) => !terminated && exception is None && e@ == ErrorView::Internal(
                "Function call failed with no exception"@,
            ),
        },
{
    if terminated {
        return CallError::Terminated;
    }
    match exception {
        Some(details) => CallError::Js(details),
        None => CallError::Runtime(
            RuntimeError::internal_text("Function call failed with no exception"),
        ),
    }
}

/// Outcome of calling a JS function synchronously.
#[derive(Debug)]
pub enum FunctionCallResult {
    /// Function returned a non-promise value immediately.
    Immediate(JSValue),
    /// Function returned a promise; call ID can be used to resume.
    Pending { call_id: u64 },
}

#[verifier::ext_equal]
pub enum CallResultView {
    Immediate(JsView),
    Pending(u64),
}

impl FunctionCallResult {
    pub open spec fn view(self) -> CallResultView {
        match self {
            FunctionCallResult::Immediate(value) => CallResultView::Immediate(value.view()),
            FunctionCallResult::Pending { call_id } => CallResultView::Pending(call_id),
        }
    }
}

/// A call result with its error by its view.
pub open spec fn call_view(result: RuntimeResult<FunctionCallResult>) -> Result<
    CallResultView,
    ErrorView,
> {
    match result {
        Ok(r) => Ok(r.view()),
        Err(err) => Err(err@),
    }
}

/// A value with its error by its view.
pub open spec fn value_view(result: RuntimeResult<JSValue>) -> Result<JsView, ErrorView> {
    match result {
        Ok(value) => Ok(value.view()),
        Err(err) => Err(err@),
    }
}

/// What a call returned.
#[derive(Debug)]
pub enum Returned {
    /// Not a promise; the value was converted.
    Value(RuntimeResult<JSValue>),
    /// A promise, whether pending or settled, by the slot of its handle.
    Promise { promise: u64 },
}

/// What came of calling a stored function.
#[derive(Debug)]
pub enum CallOutcome {
    /// The call produced no value.
    Failed { terminated: bool, exception: Option<JsExceptionDetails> },
    /// The arguments could not be converted.
    BadArguments(RuntimeError),
    /// A continuation the function queued was terminated.
    Terminating,
    Returned(Returned),
}

/// The clock of a call: when it started, when it is due and on what timeout.
#[derive(Clone, Copy, Debug)]
pub struct CallClock {
    pub start_time: Duration,
    pub deadline: Option<Duration>,
    pub timeout_ms: Option<u64>,
}

/// An explicit timeout wins over the runtime-wide one, of which the whole
/// milliseconds count.
pub open spec fn effective_timeout(core: CoreView, timeout_ms: Option<u64>) -> Option<u64> {
    match timeout_ms {
        Some(ms) => Some(ms),
        None => match core.execution_timeout {
            Some(nanos) => Some(span_ms(nanos)),
            None => None,
        },
    }
}

/// When a timeout that starts at `now` is due.
pub open spec fn due_at(now: nat, timeout_ms: Option<u64>) -> Option<nat> {
    match timeout_ms {
        Some(ms) => Some(saturating_span((now + ms * 1_000_000) as nat)),
        None => None,
    }
}

/// The optional span by its length.
pub open spec fn span_of(span: Option<Duration>) -> Option<nat> {
    match span {
        Some(d) => Some(d@),
        None => None,
    }
}

/// When a timeout that starts at `now` is due.
pub fn deadline_at(now: Duration, timeout_ms: Option<u64>) -> (deadline: Option<Duration>)
    ensures
        span_of(deadline) == due_at(now@, timeout_ms),
{
    match timeout_ms {
        Some(ms) => Some(now.saturating_add(Duration::from_millis(ms))),
        None => None,
    }
}

/// The text for a watchdog that fired.
pub open spec fn timed_out_text(context: Seq<char>, nanos: nat) -> Seq<char> {
    context + " timed out after "@ + decimal(nanos / 1_000_000) + "ms"@
}

/// The outcome of a call whose watchdog fired: a timeout, unless the call failed for
/// a reason of its own.
pub open spec fn timed_out<T>(
    result: Result<T, ErrorView>,
    context: Seq<char>,
    nanos: nat,
) -> Result<T, ErrorView> {
    match result {
        Err(err) => if error_indicates_termination(err) {
            Err(ErrorView::Timeout(timed_out_text(context, nanos)))
        } else {
            Err(err)
        },
        Ok(_) => Err(ErrorView::Timeout(timed_out_text(context, nanos))),
    }
}

/// The deadline of a token has fired.
pub open spec fn has_fired(watchdog: WatchdogView, token: WatchdogToken) -> bool {
    match position_of(watchdog.armed, token.id) {
        Some(i) => watchdog.armed[i].fired,
        None => false,
    }
}

/// Disarm a watchdog, cancelling the termination it caused if it fired. Returns
/// whether it fired and the duration it was armed for.
pub fn resolve_watchdog(
    watchdog: &mut Watchdog,
    termination: &mut TerminationController,
    token: WatchdogToken,
) -> (r: (bool, Duration))
    ensures
        r.0 == has_fired(old(watchdog)@, token),
        r.1 == token.duration,
        final(watchdog)@ == old(watchdog)@.disarmed(token.id),
        final(termination)@ == if has_fired(old(watchdog)@, token) {
            old(termination)@.unlatched()
        } else {
            old(termination)@
        },
{
    let fired: bool = watchdog.disarm(token);
    if fired {
        let _ = termination.cancel_terminate_execution();
    }
    (fired, token.duration)
}

/// The outcome of a call under a watchdog, if any, and the watchdog and termination
/// state afterwards: a watchdog that fired makes it a timeout, and the termination it
/// caused is cleared.
pub open spec fn timed_answer<T>(
    watchdog: WatchdogView,
    termination: TerminationView,
    result: Result<T, ErrorView>,
    token: Option<WatchdogToken>,
    context: Seq<char>,
) -> (Result<T, ErrorView>, WatchdogView, TerminationView) {
    match token {
        None => (result, watchdog, termination),
        Some(t) => if has_fired(watchdog, t) {
            (
                timed_out(result, context, t.duration@),
                watchdog.disarmed(t.id),
                termination.unlatched(),
            )
        } else {
            (result, watchdog.disarmed(t.id), termination)
        },
    }
}

/// Resolve a watchdog and, if it fired, turn the call's outcome into a timeout.
pub fn apply_watchdog_result<T>(
    watchdog: &mut Watchdog,
    termination: &mut TerminationController,
    result: RuntimeResult<T>,
    token: Option<WatchdogToken>,
    context: &str,
) -> (r: RuntimeResult<T>)
    ensures
        match token {
            None => r == result && final(watchdog)@ == old(watchdog)@ && final(termination)@ == old(
                termination,
            )@,
            Some(t) => {
                &&& final(watchdog)@ == old(watchdog)@.disarmed(t.id)
                &&& has_fired(old(watchdog)@, t) ==> final(termination)@ == old(
                    termination,
                )@.unlatched() && err_view(r) == timed_out(
                    err_view(result),
                    context@,
                    t.duration@,
                )
                &&& !has_fired(old(watchdog)@, t) ==> final(termination)@ == old(termination)@ && r
                    == result
            },
        },
{
    if let Some(t) = token {
        let (fired, duration): (bool, Duration) = resolve_watchdog(watchdog, termination, t);
        if fired {
            let own_failure: bool = match &result {
                Err(err) => !runtime_error_indicates_termination(err),
                Ok(_) => false,
            };
            if own_failure {
                return result;
            }
            let mut message = context.to_owned();
            message.append(" timed out after ");
            push_wide_decimal(&mut message, duration.as_millis());
            message.append("ms");
            return Err(RuntimeError::timeout(message));
        }
    }
    result
}

/// The heap sizes that an isolate is created with, or why they are refused.
pub open spec fn heap_limits(initial: Option<usize>, max: Option<usize>) -> Result<
    Option<(usize, usize)>,
    Seq<char>,
> {
    match (initial, max) {
        (Some(_), None) => Err("initial_heap_size requires max_heap_size to be set as well"@),
        (Some(i), Some(m)) => if i > m {
            Err(
                "initial_heap_size ("@ + decimal(i as nat) + ") cannot exceed max_heap_size ("@
                    + decimal(m as nat) + ")"@,
            )
        } else {
            Ok(Some((i, m)))
        },
        (None, Some(m)) => Ok(Some((0usize, m))),
        (None, None) => Ok(None),
    }
}

/// Checks the heap sizes; `Some` of the initial and the maximal size where they are
/// limited.
pub fn validate_heap_sizes(initial: Option<usize>, max: Option<usize>) -> (result: RuntimeResult<
    Option<(usize, usize)>,
>)
    ensures
        match result {
            Ok(sizes) => heap_limits(initial, max) == Ok::<_, Seq<char>>(sizes),
            Err(err) => heap_limits(initial, max) is Err && err@ == ErrorView::Internal(
                heap_limits(initial, max)->Err_0,
            ),
        },
{
    match (initial, max) {
        (Some(_), None) => Err(
            RuntimeError::internal_text(
                "initial_heap_size requires max_heap_size to be set as well",
            ),
        ),
        (Some(i), Some(m)) => if i > m {
            let mut text = join3(
                "initial_heap_size (",
                &decimal_string(i as u64),
                ") cannot exceed max_heap_size (",
            );
            text.append(&decimal_string(m as u64));
            text.append(")");
            Err(RuntimeError::internal(text))
        } else {
            Ok(Some((i, m)))
        },
        (None, Some(m)) => Ok(Some((0, m))),
        (None, None) => Ok(None),
    }
}

/// The heap limit that the engine may grow to while it unwinds.
pub open spec fn raised_limit(current: usize, initial: usize, configured: usize) -> usize {
    let eighth = (configured / 8) as usize;
    let a = if initial >= eighth {
        initial
    } else {
        eighth
    };
    let headroom = if a >= NEAR_HEAP_LIMIT_MIN_HEADROOM_BYTES {
        a
    } else {
        NEAR_HEAP_LIMIT_MIN_HEADROOM_BYTES
    };
    if current + headroom <= usize::MAX {
        (current + headroom) as usize
    } else {
        usize::MAX
    }
}

/// The engine nears its heap limit: terminate, and grant headroom to unwind with.
/// Returns the raised limit and whether this was the first request to terminate.
pub fn near_heap_limit(
    termination: &mut TerminationController,
    current: usize,
    initial: usize,
    configured: usize,
) -> (r: (usize, bool))
    ensures
        r.0 == raised_limit(current, initial, configured),
        r.1 == (old(termination)@.status == crate::termination::TerminationStatus::Running),
        final(termination)@ == old(termination)@.with_reason(
            "Heap limit exceeded"@,
        ).requested().stopping(),
{
    termination.ensure_reason("Heap limit exceeded");
    let first: bool = termination.request();
    termination.terminate_execution();
    let eighth: usize = configured / 8;
    let mut headroom: usize = if initial >= eighth {
        initial
    } else {
        eighth
    };
    if headroom < NEAR_HEAP_LIMIT_MIN_HEADROOM_BYTES {
        headroom = NEAR_HEAP_LIMIT_MIN_HEADROOM_BYTES;
    }
    (current.saturating_add(headroom), first)
}

/// The raised limit always leaves room beyond the current one, unless that is at the
/// machine's own limit.
pub proof fn law_headroom_is_granted(current: usize, initial: usize, configured: usize)
    ensures
        raised_limit(current, initial, configured) >= current,
        current <= usize::MAX - NEAR_HEAP_LIMIT_MIN_HEADROOM_BYTES ==> raised_limit(
            current,
            initial,
            configured,
        ) >= current + NEAR_HEAP_LIMIT_MIN_HEADROOM_BYTES,
{
}

/// The isolate's companions on the runtime thread.
pub struct RuntimeCoreState {
    pub registry: PythonOpRegistry,
    pub module_loader: PythonModuleLoader,
    pub task_locals: Option<u64>,
    pub op_task_locals: Option<u64>,
    pub execution_timeout: Option<Duration>,
    pub functions: FunctionTable,
    pub limits: SerializationLimits,
    pub streams: JsStreamRegistry,
    pending_calls: HashMap<u64, PendingFunctionCall>,
    next_pending_call_id: u64,
    pub stats_state: RuntimeStatsState,
    terminated: bool,
    inspector: Option<InspectorGate>,
}

impl View for RuntimeCoreState {
    type V = CoreView;

    closed spec fn view(&self) -> CoreView {
        CoreView {
            ops: self.registry@,
            loader: self.module_loader@,
            task_locals: self.task_locals,
            op_task_locals: self.op_task_locals,
            execution_timeout: span_of(self.execution_timeout),
            functions: self.functions@,
            limits: self.limits,
            streams: self.streams@,
            pending: self.pending_calls@,
            next_call: self.next_pending_call_id,
            stats: self.stats_state@,
            terminated: self.terminated,
            inspector: self.inspector,
        }
    }
}

/// The core with the current task locals, if there are any, in its loader.
pub open spec fn locals_synced(core: CoreView) -> CoreView {
    match core.task_locals {
        Some(handle) => CoreView {
            loader: LoaderView { task_locals: Some(handle), ..core.loader },
            ..core
        },
        None => core,
    }
}

/// An op was registered, or no free token was drawn.
pub open spec fn op_registered(
    before: CoreView,
    name: Seq<char>,
    mode: PythonOpMode,
    handler: u64,
    after: CoreView,
    result: Result<u64, ErrorView>,
) -> bool {
    match result {
        Ok(id) => {
            &&& is_token(id)
            &&& !before.ops.handlers.contains_key(id)
            &&& exists|entry: PythonOpEntry|
                {
                    &&& entry.id == id
                    &&& entry.name@ == name
                    &&& entry.mode == mode
                    &&& entry.handler == handler
                    &&& after == (CoreView { ops: #[trigger] before.ops.registered(entry), ..before })
                }
        },
        Err(err) => err == no_token_error() && after == before,
    }
}

/// A fresh state for a configuration.
pub open spec fn core_for(config: RuntimeConfig) -> CoreView {
    CoreView {
        ops: OpsView::fresh(),
        loader: LoaderView {
            modules: Map::empty(),
            resolver: None,
            loader: None,
            task_locals: None,
        },
        task_locals: None,
        op_task_locals: None,
        execution_timeout: span_of(config.execution_timeout),
        functions: FunctionsView::fresh(),
        limits: SerializationLimits {
            max_depth: config.max_serialization_depth,
            max_bytes: config.max_serialization_bytes,
        },
        streams: JsStreamsView::fresh(),
        pending: Map::empty(),
        next_call: 0,
        stats: StatsView {
            total: 0,
            last: None,
            last_kind: None,
            counters: seq![0u64, 0u64, 0u64, 0u64, 0u64, 0u64],
        },
        terminated: false,
        inspector: match config.inspector {
            Some(cfg) => Some(
                InspectorGate {
                    wait_for_connection: cfg.wait_for_connection,
                    break_on_next_statement: cfg.break_on_next_statement,
                    has_waited: false,
                },
            ),
            None => None,
        },
    }
}

/// The text for a pending call id that is not known.
pub open spec fn missing_call_text(call_id: u64) -> Seq<char> {
    "Pending function call "@ + decimal(call_id as nat) + " not found"@
}

impl RuntimeCoreState {
    /// A fresh state for a configuration, once its heap sizes were checked; with the
    /// heap sizes that the isolate is created with.
    pub fn new(config: &RuntimeConfig) -> (result: RuntimeResult<
        (RuntimeCoreState, Option<(usize, usize)>),
    >)
        ensures
            match result {
                Ok((core, sizes)) => heap_limits(config.initial_heap_size, config.max_heap_size)
                    == Ok::<_, Seq<char>>(sizes) && core@ == core_for(*config),
                Err(err) => heap_limits(config.initial_heap_size, config.max_heap_size) is Err
                    && err@ == ErrorView::Internal(
                    heap_limits(config.initial_heap_size, config.max_heap_size)->Err_0,
                ),
            },
    {
        let sizes: Option<(usize, usize)> = match validate_heap_sizes(
            config.initial_heap_size,
            config.max_heap_size,
        ) {
            Ok(sizes) => sizes,
            Err(err) => return Err(err),
        };
        let inspector: Option<InspectorGate> = match &config.inspector {
            Some(cfg) => Some(
                InspectorGate {
                    wait_for_connection: cfg.wait_for_connection,
                    break_on_next_statement: cfg.break_on_next_statement,
                    has_waited: false,
                },
            ),
            None => None,
        };
        let core = RuntimeCoreState {
            registry: PythonOpRegistry::new(),
            module_loader: PythonModuleLoader::new(),
            task_locals: None,
            op_task_locals: None,
            execution_timeout: config.execution_timeout,
            functions: FunctionTable::new(),
            limits: config.serialization_limits(),
            streams: JsStreamRegistry::new(),
            pending_calls: HashMap::new(),
            next_pending_call_id: 0,
            stats_state: RuntimeStatsState::default(),
            terminated: false,
            inspector,
        };
        proof {
            assert(core@.pending =~= Map::empty());
            assert(core@.stats.counters =~= core_for(*config).stats.counters);
            assert(core@ =~= core_for(*config));
        }
        Ok((core, sizes))
    }

    /// The scripts that the isolate runs before any guest code, in order; a console
    /// callback is bound as an op. The error only when no free token was drawn for it.
    pub fn startup_scripts(&mut self, config: &RuntimeConfig) -> (result: RuntimeResult<
        Vec<StartupScript>,
    >)
        ensures
            match result {
                Ok(scripts) => scripts_made(
                    old(self)@.ops,
                    *config,
                    final(self)@.ops,
                    script_views(scripts@),
                ) && final(self)@ == (CoreView { ops: final(self)@.ops, ..old(self)@ }),
                Err(err) => config.on_console is Some && err@ == no_token_error() && final(self)@
                    == old(self)@,
            },
    {
        startup_scripts(&mut self.registry, config)
    }

    /// What to wait for before code is executed; after this call there is nothing
    /// more to wait for.
    pub fn ensure_inspector_ready(&mut self) -> (wait: InspectorWait)
        ensures
            wait == gate_wait(old(self)@.inspector),
            final(self)@ == (CoreView { inspector: gate_opened(old(self)@.inspector), ..old(self)@ }),
    {
        match self.inspector {
            None => InspectorWait::Nothing,
            Some(gate) => {
                self.inspector = Some(
                    InspectorGate {
                        wait_for_connection: gate.wait_for_connection,
                        break_on_next_statement: gate.break_on_next_statement,
                        has_waited: true,
                    },
                );
                if gate.has_waited {
                    InspectorWait::Nothing
                } else if gate.break_on_next_statement {
                    InspectorWait::SessionAndBreak
                } else if gate.wait_for_connection {
                    InspectorWait::Session
                } else {
                    InspectorWait::Nothing
                }
            },
        }
    }

    /// Whether no new work is taken on.
    pub fn should_reject_new_work(&self, termination: &TerminationController) -> (yes: bool)
        ensures
            yes == rejecting(self@, termination@),
    {
        self.terminated || termination.is_requested()
    }

    /// Admission check for a new command: not terminated; with what to wait for.
    pub fn admission(&mut self, termination: &TerminationController) -> (result: RuntimeResult<
        InspectorWait,
    >)
        ensures
            match result {
                Ok(wait) => !rejecting(old(self)@, termination@) && wait == gate_wait(
                    old(self)@.inspector,
                ) && final(self)@ == (CoreView {
                    inspector: gate_opened(old(self)@.inspector),
                    ..old(self)@
                }),
                Err(err) => rejecting(old(self)@, termination@) && err@ == termination@.error()
                    && final(self)@ == old(self)@,
            },
    {
        if self.should_reject_new_work(termination) {
            return Err(termination.terminated_error());
        }
        Ok(self.ensure_inspector_ready())
    }

    /// Publish (or with `None`, clear) the caller's task locals to everything that
    /// can re-enter them.
    pub fn set_task_locals(&mut self, locals: Option<u64>)
        ensures
            final(self)@ == (CoreView {
                loader: LoaderView { task_locals: locals, ..old(self)@.loader },
                task_locals: locals,
                op_task_locals: locals,
                ..old(self)@
            }),
    {
        match locals {
            Some(handle) => {
                self.module_loader.set_task_locals(handle);
            },
            None => {
                self.module_loader.clear_task_locals();
            },
        }
        self.op_task_locals = locals;
        self.task_locals = locals;
    }

    /// Hand the current task locals to a freshly installed resolver or loader.
    pub fn sync_loader_task_locals(&mut self)
        ensures
            final(self)@ == locals_synced(old(self)@),
    {
        if let Some(handle) = self.task_locals {
            self.module_loader.set_task_locals(handle);
        }
    }

    /// Drop the caller's task locals.
    pub fn clear_task_locals(&mut self)
        ensures
            final(self)@ == (CoreView {
                loader: LoaderView { task_locals: None, ..old(self)@.loader },
                task_locals: None,
                op_task_locals: None,
                ..old(self)@
            }),
    {
        self.set_task_locals(None);
    }

    /// The timeout that holds for a call.
    pub fn effective_timeout_ms(&self, timeout_ms: Option<u64>) -> (effective: Option<u64>)
        ensures
            effective == effective_timeout(self@, timeout_ms),
    {
        match timeout_ms {
            Some(ms) => Some(ms),
            None => match self.execution_timeout {
                Some(span) => Some(crate::stats::duration_to_u64_ms(span)),
                None => None,
            },
        }
    }

    /// Parks a call whose promise is pending; returns the id to resume it with.
    fn store_pending_call(&mut self, call: PendingFunctionCall) -> (call_id: u64)
        ensures
            call_id == old(self)@.next_call,
            final(self)@ == (CoreView {
                pending: old(self)@.pending.insert(old(self)@.next_call, call),
                next_call: crate::termination::token_after(old(self)@.next_call),
                ..old(self)@
            }),
    {
        let call_id: u64 = self.next_pending_call_id;
        self.next_pending_call_id = call_id.wrapping_add(1);
        self.pending_calls.insert(call_id, call);
        call_id
    }

    /// Takes a parked call out in order to resume it.
    pub fn take_pending_call(&mut self, call_id: u64) -> (result: RuntimeResult<
        PendingFunctionCall,
    >)
        ensures
            match result {
                Ok(call) => old(self)@.pending.contains_key(call_id) && call
                    == old(self)@.pending[call_id],
                Err(err) => !old(self)@.pending.contains_key(call_id) && err@
                    == ErrorView::Internal(missing_call_text(call_id)),
            },
            final(self)@ == (CoreView { pending: old(self)@.pending.remove(call_id), ..old(self)@ }),
    {
        let ghost before = self@;
        let removed: Option<PendingFunctionCall> = self.pending_calls.remove(&call_id);
        assert(self@ =~= (CoreView { pending: before.pending.remove(call_id), ..before }));
        match removed {
            Some(call) => Ok(call),
            None => Err(
                RuntimeError::internal(
                    join3("Pending function call ", &decimal_string(call_id), " not found"),
                ),
            ),
        }
    }

    /// Arm the watchdog for `timeout_ms`, if any.
    pub fn arm_watchdog(
        &self,
        watchdog: &mut Watchdog,
        now: Duration,
        timeout_ms: Option<u64>,
        reason: &str,
    ) -> (token: Option<WatchdogToken>)
        ensures
            match timeout_ms {
                None => token is None && final(watchdog)@ == old(watchdog)@,
                Some(ms) => token is Some && token->0.id == old(watchdog)@.next_id
                    && token->0.duration@ == ms * 1_000_000 && final(watchdog)@ == old(
                    watchdog,
                )@.armed_at(now@, (ms * 1_000_000) as nat, reason@),
            },
    {
        match timeout_ms {
            None => None,
            Some(ms) => Some(watchdog.arm(now, Duration::from_millis(ms), reason)),
        }
    }

    /// Arm the watchdog for the runtime-wide execution timeout, if any.
    pub fn arm_execution_watchdog(
        &self,
        watchdog: &mut Watchdog,
        now: Duration,
        reason: &str,
    ) -> (token: Option<WatchdogToken>)
        ensures
            match self@.execution_timeout {
                None => token is None && final(watchdog)@ == old(watchdog)@,
                Some(nanos) => token is Some && token->0.id == old(watchdog)@.next_id
                    && token->0.duration@ == nanos && final(watchdog)@ == old(watchdog)@.armed_at(
                    now@,
                    nanos,
                    reason@,
                ),
            },
    {
        match self.execution_timeout {
            None => None,
            Some(span) => Some(watchdog.arm(now, span, reason)),
        }
    }

    /// Ends the runtime's work: functions and parked calls are forgotten, and the
    /// isolate is marked terminated. A second time changes nothing.
    pub fn finalize_termination(&mut self, termination: &mut TerminationController)
        ensures
            final(self)@ == finalized(old(self)@),
            final(termination)@ == termination_finalized(old(self)@, old(termination)@),
    {
        if self.terminated {
            return ;
        }
        let _ = termination.cancel_terminate_execution();
        self.functions.clear();
        self.pending_calls.clear();
        let _ = termination.mark_terminated();
        self.terminated = true;
        assert(self@.pending =~= Map::empty());
    }

    /// An exception as the caller sees it.
    pub fn translate_js_error(
        &mut self,
        termination: &mut TerminationController,
        details: JsExceptionDetails,
    ) -> (err: RuntimeError)
        ensures
            (final(self)@, final(termination)@, err@) == translated(
                old(self)@,
                old(termination)@,
                ErrorView::JavaScript(details@),
            ),
    {
        if self.should_reject_new_work(termination) && js_error_indicates_termination(&details) {
            self.finalize_termination(termination);
            termination.terminated_error()
        } else {
            RuntimeError::javascript(details)
        }
    }

    /// An engine error as the caller sees it.
    pub fn translate_core_error(
        &mut self,
        termination: &mut TerminationController,
        err: RuntimeError,
    ) -> (r: RuntimeError)
        ensures
            (final(self)@, final(termination)@, r@) == translated(
                old(self)@,
                old(termination)@,
                err@,
            ),
    {
        if self.should_reject_new_work(termination) && runtime_error_indicates_termination(&err) {
            self.finalize_termination(termination);
            termination.terminated_error()
        } else {
            err
        }
    }

    /// A call error as the caller sees it. A call that the engine stopped mid-flight
    /// is named the way a stopped script is, so that it classifies like one.
    pub fn translate_call_error(
        &mut self,
        termination: &mut TerminationController,
        err: CallError,
    ) -> (r: RuntimeError)
        ensures
            (final(self)@, final(termination)@, r@) == call_error_translated(
                old(self)@,
                old(termination)@,
                err,
            ),
    {
        match err {
            CallError::Runtime(e) => e,
            CallError::Js(details) => self.translate_js_error(termination, details),
            CallError::Terminated => {
                let details = JsExceptionDetails {
                    name: Some("Error".to_owned()),
                    message: Some("execution terminated".to_owned()),
                    stack: Some("Error: execution terminated".to_owned()),
                    frames: Vec::new(),
                    summary: "Error: execution terminated".to_owned(),
                };
                assert(details@.frames =~= Seq::empty());
                self.translate_js_error(termination, details)
            },
        }
    }

    /// Begins a synchronous call: the function must be known; its clock starts now.
    pub fn begin_call(&self, fn_id: u32, timeout_ms: Option<u64>, now: Duration) -> (result:
        RuntimeResult<CallClock>)
        ensures
            match result {
                Ok(clock) => self@.functions.stored.contains_key(fn_id) && clock.start_time == now
                    && clock.timeout_ms == effective_timeout(self@, timeout_ms) && span_of(
                    clock.deadline,
                ) == due_at(now@, effective_timeout(self@, timeout_ms)),
                Err(err) => !self@.functions.stored.contains_key(fn_id) && err@
                    == ErrorView::Internal(missing_function_text(fn_id)),
            },
    {
        match self.functions.get(fn_id) {
            None => Err(missing_function(fn_id)),
            Some(_) => {
                let effective: Option<u64> = self.effective_timeout_ms(timeout_ms);
                Ok(
                    CallClock {
                        start_time: now,
                        deadline: deadline_at(now, effective),
                        timeout_ms: effective,
                    },
                )
            },
        }
    }

    /// Ends a synchronous call: the value, a parked promise, or the error.
    pub fn finish_call(
        &mut self,
        termination: &mut TerminationController,
        clock: CallClock,
        outcome: CallOutcome,
    ) -> (result: RuntimeResult<FunctionCallResult>)
        ensures
            call_finished(
                old(self)@,
                old(termination)@,
                clock,
                outcome,
                final(self)@,
                final(termination)@,
                call_view(result),
            ),
    {
        match outcome {
            CallOutcome::BadArguments(err) => Err(err),
            CallOutcome::Failed { terminated, exception } => {
                let err: CallError = caught_call_error(terminated, exception);
                Err(self.translate_call_error(termination, err))
            },
            CallOutcome::Terminating => Err(
                self.translate_call_error(termination, CallError::Terminated),
            ),
            CallOutcome::Returned(Returned::Value(Ok(value))) => Ok(
                FunctionCallResult::Immediate(value),
            ),
            CallOutcome::Returned(Returned::Value(Err(err))) => Err(err),
            CallOutcome::Returned(Returned::Promise { promise }) => {
                let call_id: u64 = self.store_pending_call(
                    PendingFunctionCall {
                        promise,
                        start_time: clock.start_time,
                        deadline: clock.deadline,
                        timeout_ms: clock.timeout_ms,
                    },
                );
                Ok(FunctionCallResult::Pending { call_id })
            },
        }
    }

    /// Installs a module resolver, with the current task locals.
    pub fn set_module_resolver(&mut self, handler: u64)
        ensures
            final(self)@ == locals_synced(
                CoreView {
                    loader: LoaderView { resolver: Some(handler), ..old(self)@.loader },
                    ..old(self)@
                },
            ),
    {
        self.module_loader.set_resolver(handler);
        self.sync_loader_task_locals();
    }

    /// Installs a module loader, with the current task locals.
    pub fn set_module_loader(&mut self, handler: u64)
        ensures
            final(self)@ == locals_synced(
                CoreView {
                    loader: LoaderView { loader: Some(handler), ..old(self)@.loader },
                    ..old(self)@
                },
            ),
    {
        self.module_loader.set_loader(handler);
        self.sync_loader_task_locals();
    }

    /// Registers a module with pre-defined source.
    pub fn add_static_module(&mut self, name: String, source: String)
        ensures
            final(self)@ == (CoreView {
                loader: LoaderView {
                    modules: old(self)@.loader.modules.insert(name@, source@),
                    ..old(self)@.loader
                },
                ..old(self)@
            }),
    {
        self.module_loader.add_static_module(name, source);
    }

    /// Registers a Python callable and returns its capability token; the error only
    /// when no free token was drawn.
    pub fn register_python_op(&mut self, name: &str, mode: PythonOpMode, handler: u64) -> (result:
        RuntimeResult<OpToken>)
        ensures
            op_registered(old(self)@, name@, mode, handler, final(self)@, err_view(result)),
    {
        let ghost before = self@;
        match self.registry.register(name, mode, handler) {
            Some(id) => {
                proof {
                    let entry = choose|entry: PythonOpEntry|
                        {
                            &&& entry.id == id
                            &&& entry.name@ == name@
                            &&& entry.mode == mode
                            &&& entry.handler == handler
                            &&& self.registry@ == #[trigger] before.ops.registered(entry)
                        };
                    assert(self@ == (CoreView { ops: before.ops.registered(entry), ..before }));
                }
                Ok(id)
            },
            None => Err(no_token()),
        }
    }

    /// A JavaScript stream with its reader; an unknown id is an error.
    pub fn js_stream(&self, stream_id: u32) -> (stream: RuntimeResult<JsStreamEntry>)
        ensures
            match stream {
                Ok(entry) => self@.streams.entries.contains_key(stream_id) && entry
                    == self@.streams.entries[stream_id],
                Err(err) => Err::<(), ErrorView>(err@) == self@.streams.release_result(stream_id),
            },
    {
        self.streams.ensure_reader(stream_id)
    }

    /// Makes a registered op dispatchable; `false` (and no-op) if not registered.
    pub fn expose_op(&mut self, op_id: OpToken) -> (known: bool)
        ensures
            known == old(self)@.ops.handlers.contains_key(op_id),
            final(self)@ == (CoreView { ops: old(self)@.ops.exposing(op_id), ..old(self)@ }),
    {
        self.registry.expose(op_id)
    }

    /// Expose (`true`) or revoke (`false`) one op capability.
    pub fn set_python_op_exposure(&mut self, op_id: OpToken, exposed: bool) -> (known: bool)
        ensures
            known == old(self)@.ops.handlers.contains_key(op_id),
            final(self)@ == (CoreView {
                ops: if exposed {
                    old(self)@.ops.exposing(op_id)
                } else {
                    old(self)@.ops.revoked(op_id)
                },
                ..old(self)@
            }),
    {
        self.registry.set_exposure(op_id, exposed)
    }

    /// Forgets a function; an unknown id is no error.
    pub fn release_function(&mut self, fn_id: u32) -> (known: bool)
        ensures
            known == old(self)@.functions.stored.contains_key(fn_id),
            final(self)@ == (CoreView { functions: old(self)@.functions.without(fn_id), ..old(self)@ }),
    {
        self.functions.remove(fn_id)
    }

    /// Forgets every function; returns how many were left.
    pub fn release_all_functions(&mut self) -> (leaked: usize)
        ensures
            leaked == old(self)@.functions.stored.dom().len(),
            final(self)@ == (CoreView { functions: old(self)@.functions.cleared(), ..old(self)@ }),
    {
        let leaked: usize = self.functions.len();
        self.functions.clear();
        leaked
    }

    /// Forgets a JavaScript stream; an unknown id is an error.
    pub fn release_js_stream(&mut self, stream_id: u32) -> (result: RuntimeResult<()>)
        ensures
            err_view(result) == old(self)@.streams.release_result(stream_id),
            final(self)@ == (CoreView { streams: old(self)@.streams.released(stream_id), ..old(self)@ }),
    {
        let known: RuntimeResult<JsStreamEntry> = self.streams.ensure_reader(stream_id);
        self.streams.release(stream_id);
        match known {
            Ok(_) => Ok(()),
            Err(err) => Err(err),
        }
    }

    /// Counts a chunk that was read from a JavaScript stream.
    pub fn count_chunk(&mut self, stream_id: u32, chunk: &crate::stream::StreamChunk)
        ensures
            final(self)@ == (CoreView {
                streams: old(self)@.streams.after_chunk(stream_id, chunk@),
                ..old(self)@
            }),
    {
        self.streams.update_stats_after_chunk(stream_id, chunk);
    }

    /// Counts a finished call and the time since it started.
    pub fn record_call(&mut self, kind: RuntimeCallKind, start: Duration, now: Duration)
        ensures
            final(self)@ == (CoreView {
                stats: old(self)@.stats.recorded(kind, elapsed_nanos(start@, now@)),
                ..old(self)@
            }),
    {
        let elapsed: Duration = now.saturating_sub(start);
        self.stats_state.record(kind, elapsed);
    }

    /// All figures that the runtime reports.
    pub fn collect_stats(
        &self,
        heap: HeapSnapshot,
        activity: ActivitySummary,
        py_streams: &PyStreamRegistry,
    ) -> (snapshot: RuntimeStatsSnapshot)
        ensures
            stats_collected(self@, heap, activity, py_streams@, snapshot),
    {
        let mut streams: StreamStatsSnapshot = self.streams.stats_snapshot();
        streams.merge(&py_streams.stats_snapshot());
        RuntimeStatsSnapshot::new(heap, self.stats_state.snapshot(), activity, streams)
    }
}

/// The time between two moments; none if the second comes first.
pub open spec fn elapsed_nanos(start: nat, now: nat) -> nat {
    if now >= start {
        (now - start) as nat
    } else {
        0
    }
}

/// The figures that are reported: those of the heap, of the activity, of the calls
/// and of the streams on both sides.
pub open spec fn stats_collected(
    core: CoreView,
    heap: HeapSnapshot,
    activity: ActivitySummary,
    py: crate::stream::PyStreamsView,
    s: RuntimeStatsSnapshot,
) -> bool {
    &&& s.heap_total_bytes == heap.heap_total_bytes
    &&& s.heap_used_bytes == heap.heap_used_bytes
    &&& s.external_memory_bytes == heap.external_memory_bytes
    &&& s.physical_total_bytes == heap.physical_total_bytes
    &&& s.total_execution_time_ms == span_ms(core.stats.total)
    &&& s.last_execution_time_ms == match core.stats.last {
        Some(nanos) => span_ms(nanos),
        None => 0,
    }
    &&& s.last_execution_kind == core.stats.last_kind
    &&& s.eval_sync_count == core.stats.counters[0]
    &&& s.eval_async_count == core.stats.counters[1]
    &&& s.eval_module_sync_count == core.stats.counters[2]
    &&& s.eval_module_async_count == core.stats.counters[3]
    &&& s.call_function_async_count == core.stats.counters[4]
    &&& s.call_function_sync_count == core.stats.counters[5]
    &&& s.active_async_ops == activity.active_async_ops
    &&& s.open_resources == activity.open_resources
    &&& s.active_timers == activity.active_timers
    &&& s.active_intervals == activity.active_intervals
    &&& s.active_js_streams == core.streams.active
    &&& s.active_py_streams == py.active
    &&& s.total_js_streams == core.streams.total
    &&& s.total_py_streams == py.total
    &&& s.bytes_streamed_js_to_py == core.streams.bytes
    &&& s.bytes_streamed_py_to_js == py.bytes
}

/// What a synchronous call that ended this way amounts to.
pub open spec fn call_finished(
    core: CoreView,
    termination: TerminationView,
    clock: CallClock,
    outcome: CallOutcome,
    core_after: CoreView,
    termination_after: TerminationView,
    result: Result<CallResultView, ErrorView>,
) -> bool {
    match outcome {
        CallOutcome::BadArguments(err) => {
            core_after == core && termination_after == termination && result == Err::<
                CallResultView,
                _,
            >(err@)
        },
        CallOutcome::Failed { terminated, exception } => {
            if !terminated && exception is None {
                core_after == core && termination_after == termination && result == Err::<
                    CallResultView,
                    _,
                >(ErrorView::Internal("Function call failed with no exception"@))
            } else {
                let err = if terminated {
                    ErrorView::JavaScript(terminated_call_details())
                } else {
                    ErrorView::JavaScript(exception->0@)
                };
                let (c, t, e) = translated(core, termination, err);
                core_after == c && termination_after == t && result == Err::<CallResultView, _>(e)
            }
        },
        CallOutcome::Terminating => {
            let (c, t, e) = translated(
                core,
                termination,
                ErrorView::JavaScript(terminated_call_details()),
            );
            core_after == c && termination_after == t && result == Err::<CallResultView, _>(e)
        },
        CallOutcome::Returned(Returned::Value(value)) => {
            core_after == core && termination_after == termination && result == match value {
                Ok(v) => Ok::<_, ErrorView>(CallResultView::Immediate(v.view())),
                Err(err) => Err(err@),
            }
        },
        CallOutcome::Returned(Returned::Promise { promise }) => {
            &&& core_after == (CoreView {
                pending: core.pending.insert(
                    core.next_call,
                    PendingFunctionCall {
                        promise,
                        start_time: clock.start_time,
                        deadline: clock.deadline,
                        timeout_ms: clock.timeout_ms,
                    },
                ),
                next_call: crate::termination::token_after(core.next_call),
                ..core
            })
            &&& termination_after == termination
            &&& result == Ok::<_, ErrorView>(CallResultView::Pending(core.next_call))
        },
    }
}

/// Finalizing a termination twice is finalizing it once; afterwards nothing is
/// taken on, no function and no parked call is left, and nothing stays latched; the
/// Python ops stay bound.
pub proof fn law_finalize_is_final(core: CoreView, termination: TerminationView)
    ensures
        finalized(finalized(core)) == finalized(core),
        termination_finalized(finalized(core), termination_finalized(core, termination))
            == termination_finalized(core, termination),
        rejecting(finalized(core), termination_finalized(core, termination)),
        finalized(core).ops == core.ops,
        !core.terminated ==> finalized(core).functions.stored == Map::<
            u32,
            crate::functions::StoredFunction,
        >::empty() && finalized(core).pending == Map::<u64, PendingFunctionCall>::empty()
            && !termination_finalized(core, termination).latched,
{
}

/// An exception in a runtime that was not asked to terminate is never reported as a
/// termination.
pub proof fn law_running_errors_are_kept(core: CoreView, termination: TerminationView, err: ErrorView)
    requires
        !rejecting(core, termination),
    ensures
        translated(core, termination, err) == (core, termination, err),
{
}

/// A timeout stays with the call that it stopped: once the call is answered, the
/// termination that its watchdog caused is not latched, and a call that was running
/// leaves a running isolate.
pub proof fn law_timeouts_stop_one_call<T>(
    watchdog: WatchdogView,
    termination: TerminationView,
    result: Result<T, ErrorView>,
    token: WatchdogToken,
    context: Seq<char>,
)
    requires
        has_fired(watchdog, token),
    ensures
        ({
            let (answer, after_watchdog, after) = timed_answer(
                watchdog,
                termination,
                result,
                Some(token),
                context,
            );
            &&& !after.latched
            &&& after.status == termination.status
            &&& answer is Err
            &&& after_watchdog == watchdog.disarmed(token.id)
        }),
{
}

} // verus!
