//! Runtime statistics: execution counters, heap, activity and stream figures.

use crate::stream::StreamStatsSnapshot;
use crate::time::{saturating_span, Duration};
use vstd::prelude::*;

verus! {

/// JavaScript entry point that was executed; the order indexes
/// [`RuntimeExecutionCounters`].
#[derive(Debug, Clone, Copy, PartialEq, Eq, Structural)]
pub enum RuntimeCallKind {
    EvalSync,
    EvalAsync,
    EvalModuleSync,
    EvalModuleAsync,
    CallFunctionAsync,
    CallFunctionSync,
}

/// The place of a call kind among the counters.
pub open spec fn kind_index(kind: RuntimeCallKind) -> int {
    match kind {
        RuntimeCallKind::EvalSync => 0,
        RuntimeCallKind::EvalAsync => 1,
        RuntimeCallKind::EvalModuleSync => 2,
        RuntimeCallKind::EvalModuleAsync => 3,
        RuntimeCallKind::CallFunctionAsync => 4,
        RuntimeCallKind::CallFunctionSync => 5,
    }
}

/// The name of a call kind.
pub open spec fn kind_name(kind: RuntimeCallKind) -> Seq<char> {
    match kind {
        RuntimeCallKind::EvalSync => "eval_sync"@,
        RuntimeCallKind::EvalAsync => "eval_async"@,
        RuntimeCallKind::EvalModuleSync => "eval_module_sync"@,
        RuntimeCallKind::EvalModuleAsync => "eval_module_async"@,
        RuntimeCallKind::CallFunctionAsync => "call_function_async"@,
        RuntimeCallKind::CallFunctionSync => "call_function_sync"@,
    }
}

impl RuntimeCallKind {
    pub fn as_str(self) -> (name: &'static str)
        ensures
            name@ == kind_name(self),
    {
        match self {
            RuntimeCallKind::EvalSync => "eval_sync",
            RuntimeCallKind::EvalAsync => "eval_async",
            RuntimeCallKind::EvalModuleSync => "eval_module_sync",
            RuntimeCallKind::EvalModuleAsync => "eval_module_async",
            RuntimeCallKind::CallFunctionAsync => "call_function_async",
            RuntimeCallKind::CallFunctionSync => "call_function_sync",
        }
    }

    /// The place among the counters.
    pub fn index(self) -> (i: usize)
        ensures
            i == kind_index(self),
            i < 6,
    {
        match self {
            RuntimeCallKind::EvalSync => 0,
            RuntimeCallKind::EvalAsync => 1,
            RuntimeCallKind::EvalModuleSync => 2,
            RuntimeCallKind::EvalModuleAsync => 3,
            RuntimeCallKind::CallFunctionAsync => 4,
            RuntimeCallKind::CallFunctionSync => 5,
        }
    }
}

/// Per-kind call counters, in the order of the call kinds.
pub type RuntimeExecutionCounters = [u64; 6];

pub type ExecutionSnapshot = RuntimeStatsState;

/// Execution time and call counts since the runtime started.
#[derive(Debug, Clone, Copy)]
pub struct RuntimeStatsState {
    pub total_execution: Duration,
    pub last_execution: Option<Duration>,
    pub last_call_kind: Option<RuntimeCallKind>,
    pub counters: RuntimeExecutionCounters,
}

/// What a `RuntimeStatsState` holds.
#[verifier::ext_equal]
pub struct StatsView {
    pub total: nat,
    pub last: Option<nat>,
    pub last_kind: Option<RuntimeCallKind>,
    pub counters: Seq<u64>,
}

impl View for RuntimeStatsState {
    type V = StatsView;

    open spec fn view(&self) -> StatsView {
        StatsView {
            total: self.total_execution@,
            last: match self.last_execution {
                Some(span) => Some(span@),
                None => None,
            },
            last_kind: self.last_call_kind,
            counters: self.counters@,
        }
    }
}

impl StatsView {
    /// After a call of this kind that took this long was counted.
    pub open spec fn recorded(self, kind: RuntimeCallKind, nanos: nat) -> StatsView {
        StatsView {
            total: saturating_span(self.total + nanos),
            last: Some(nanos),
            last_kind: Some(kind),
            counters: self.counters.update(
                kind_index(kind),
                bumped(self.counters[kind_index(kind)]),
            ),
        }
    }
}

/// One more, held at the largest count.
pub open spec fn bumped(count: u64) -> u64 {
    if count < u64::MAX {
        (count + 1) as u64
    } else {
        count
    }
}

impl Default for RuntimeStatsState {
    fn default() -> (state: Self)
        ensures
            state.total_execution@ == 0,
            state.last_execution is None,
            state.last_call_kind is None,
            forall|i: int| 0 <= i < 6 ==> state.counters@[i] == 0,
    {
        RuntimeStatsState {
            total_execution: Duration::zero(),
            last_execution: None,
            last_call_kind: None,
            counters: [0, 0, 0, 0, 0, 0],
        }
    }
}

impl RuntimeStatsState {
    /// Counts one finished call and the time it took.
    pub fn record(&mut self, kind: RuntimeCallKind, elapsed: Duration)
        ensures
            final(self).total_execution@ == saturating_span(
                old(self).total_execution@ + elapsed@,
            ),
            final(self).last_execution == Some(elapsed),
            final(self).last_call_kind == Some(kind),
            final(self).counters@ == old(self).counters@.update(
                kind_index(kind),
                bumped(old(self).counters@[kind_index(kind)]),
            ),
            final(self)@ == old(self)@.recorded(kind, elapsed@),
    {
        self.total_execution = self.total_execution.saturating_add(elapsed);
        self.last_execution = Some(elapsed);
        self.last_call_kind = Some(kind);
        let i: usize = kind.index();
        let count: u64 = self.counters[i].saturating_add(1);
        self.counters.set(i, count);
    }

    /// The figures as they stand.
    pub fn snapshot(&self) -> (snapshot: ExecutionSnapshot)
        ensures
            snapshot == *self,
    {
        *self
    }
}

/// Heap figures of the engine.
#[derive(Debug, Clone, Copy)]
pub struct HeapSnapshot {
    pub heap_total_bytes: u64,
    pub heap_used_bytes: u64,
    pub external_memory_bytes: u64,
    pub physical_total_bytes: u64,
}

impl Default for HeapSnapshot {
    fn default() -> (heap: Self)
        ensures
            heap == (HeapSnapshot {
                heap_total_bytes: 0,
                heap_used_bytes: 0,
                external_memory_bytes: 0,
                physical_total_bytes: 0,
            }),
    {
        HeapSnapshot {
            heap_total_bytes: 0,
            heap_used_bytes: 0,
            external_memory_bytes: 0,
            physical_total_bytes: 0,
        }
    }
}

/// One thing that keeps the engine's event loop busy.
#[derive(Debug, Clone, Copy, PartialEq, Eq, Structural)]
pub enum RuntimeActivity {
    AsyncOp,
    Resource,
    Timer,
    Interval,
}

/// Everything that keeps the engine's event loop busy.
#[derive(Debug, Clone)]
pub struct RuntimeActivitySnapshot {
    pub active: Vec<RuntimeActivity>,
}

/// How many activities of each kind there are.
#[derive(Debug, Clone, Copy)]
pub struct ActivitySummary {
    pub active_async_ops: u64,
    pub open_resources: u64,
    pub active_timers: u64,
    pub active_intervals: u64,
}

impl Default for ActivitySummary {
    fn default() -> (summary: Self)
        ensures
            summary == (ActivitySummary {
                active_async_ops: 0,
                open_resources: 0,
                active_timers: 0,
                active_intervals: 0,
            }),
    {
        ActivitySummary {
            active_async_ops: 0,
            open_resources: 0,
            active_timers: 0,
            active_intervals: 0,
        }
    }
}

/// How often `kind` occurs.
pub open spec fn occurrences(active: Seq<RuntimeActivity>, kind: RuntimeActivity) -> nat
    decreases active.len(),
{
    if active.len() == 0 {
        0
    } else {
        occurrences(active.drop_last(), kind) + if active.last() == kind {
            1nat
        } else {
            0nat
        }
    }
}

proof fn lemma_occurrences_bound(active: Seq<RuntimeActivity>, kind: RuntimeActivity)
    ensures
        occurrences(active, kind) <= active.len(),
    decreases active.len(),
{
    if active.len() > 0 {
        lemma_occurrences_bound(active.drop_last(), kind);
    }
}

impl ActivitySummary {
    pub fn from_snapshot(snapshot: RuntimeActivitySnapshot) -> (summary: Self)
        ensures
            summary.active_async_ops == occurrences(snapshot.active@, RuntimeActivity::AsyncOp),
            summary.open_resources == occurrences(snapshot.active@, RuntimeActivity::Resource),
            summary.active_timers == occurrences(snapshot.active@, RuntimeActivity::Timer),
            summary.active_intervals == occurrences(snapshot.active@, RuntimeActivity::Interval),
    {
        let mut summary = ActivitySummary::default();
        let active: Vec<RuntimeActivity> = snapshot.active;
        let mut i: usize = 0;
        assert(active@.take(0) =~= Seq::empty());
        while i < active.len()
            invariant
                i <= active@.len(),
                summary.active_async_ops == occurrences(
                    active@.take(i as int),
                    RuntimeActivity::AsyncOp,
                ),
                summary.open_resources == occurrences(
                    active@.take(i as int),
                    RuntimeActivity::Resource,
                ),
                summary.active_timers == occurrences(
                    active@.take(i as int),
                    RuntimeActivity::Timer,
                ),
                summary.active_intervals == occurrences(
                    active@.take(i as int),
                    RuntimeActivity::Interval,
                ),
            decreases active@.len() - i,
        {
            proof {
                assert(active@.take(i + 1).drop_last() =~= active@.take(i as int));
                lemma_occurrences_bound(active@.take(i as int), RuntimeActivity::AsyncOp);
                lemma_occurrences_bound(active@.take(i as int), RuntimeActivity::Resource);
                lemma_occurrences_bound(active@.take(i as int), RuntimeActivity::Timer);
                lemma_occurrences_bound(active@.take(i as int), RuntimeActivity::Interval);
            }
            match active[i] {
                RuntimeActivity::AsyncOp => {
                    summary.active_async_ops = summary.active_async_ops.saturating_add(1);
                },
                RuntimeActivity::Resource => {
                    summary.open_resources = summary.open_resources.saturating_add(1);
                },
                RuntimeActivity::Timer => {
                    summary.active_timers = summary.active_timers.saturating_add(1);
                },
                RuntimeActivity::Interval => {
                    summary.active_intervals = summary.active_intervals.saturating_add(1);
                },
            }
            i = i + 1;
        }
        assert(active@.take(i as int) =~= active@);
        summary
    }
}

/// All figures that the runtime reports.
#[derive(Debug, Clone, Copy)]
pub struct RuntimeStatsSnapshot {
    pub heap_total_bytes: u64,
    pub heap_used_bytes: u64,
    pub external_memory_bytes: u64,
    pub physical_total_bytes: u64,
    pub total_execution_time_ms: u64,
    pub last_execution_time_ms: u64,
    pub last_execution_kind: Option<RuntimeCallKind>,
    pub eval_sync_count: u64,
    pub eval_async_count: u64,
    pub eval_module_sync_count: u64,
    pub eval_module_async_count: u64,
    pub call_function_async_count: u64,
    pub call_function_sync_count: u64,
    pub active_async_ops: u64,
    pub open_resources: u64,
    pub active_timers: u64,
    pub active_intervals: u64,
    pub active_js_streams: u64,
    pub active_py_streams: u64,
    pub total_js_streams: u64,
    pub total_py_streams: u64,
    pub bytes_streamed_js_to_py: u64,
    pub bytes_streamed_py_to_js: u64,
}

/// Whole milliseconds of a span, held at the largest `u64`.
pub open spec fn span_ms(nanos: nat) -> u64 {
    if nanos / 1_000_000 <= u64::MAX {
        (nanos / 1_000_000) as u64
    } else {
        u64::MAX
    }
}

impl RuntimeStatsSnapshot {
    pub fn new(
        heap: HeapSnapshot,
        execution: ExecutionSnapshot,
        activity: ActivitySummary,
        streams: StreamStatsSnapshot,
    ) -> (snapshot: Self)
        ensures
            snapshot == (RuntimeStatsSnapshot {
                heap_total_bytes: heap.heap_total_bytes,
                heap_used_bytes: heap.heap_used_bytes,
                external_memory_bytes: heap.external_memory_bytes,
                physical_total_bytes: heap.physical_total_bytes,
                total_execution_time_ms: span_ms(execution.total_execution@),
                last_execution_time_ms: match execution.last_execution {
                    Some(span) => span_ms(span@),
                    None => 0,
                },
                last_execution_kind: execution.last_call_kind,
                eval_sync_count: execution.counters@[0],
                eval_async_count: execution.counters@[1],
                eval_module_sync_count: execution.counters@[2],
                eval_module_async_count: execution.counters@[3],
                call_function_async_count: execution.counters@[4],
                call_function_sync_count: execution.counters@[5],
                active_async_ops: activity.active_async_ops,
                open_resources: activity.open_resources,
                active_timers: activity.active_timers,
                active_intervals: activity.active_intervals,
                active_js_streams: streams.active_js_streams,
                active_py_streams: streams.active_py_streams,
                total_js_streams: streams.total_js_streams,
                total_py_streams: streams.total_py_streams,
                bytes_streamed_js_to_py: streams.bytes_streamed_js_to_py,
                bytes_streamed_py_to_js: streams.bytes_streamed_py_to_js,
            }),
    {
        RuntimeStatsSnapshot {
            heap_total_bytes: heap.heap_total_bytes,
            heap_used_bytes: heap.heap_used_bytes,
            external_memory_bytes: heap.external_memory_bytes,
            physical_total_bytes: heap.physical_total_bytes,
            total_execution_time_ms: duration_to_u64_ms(execution.total_execution),
            last_execution_time_ms: match execution.last_execution {
                Some(span) => duration_to_u64_ms(span),
                None => 0,
            },
            last_execution_kind: execution.last_call_kind,
            eval_sync_count: execution.counters[0],
            eval_async_count: execution.counters[1],
            eval_module_sync_count: execution.counters[2],
            eval_module_async_count: execution.counters[3],
            call_function_async_count: execution.counters[4],
            call_function_sync_count: execution.counters[5],
            active_async_ops: activity.active_async_ops,
            open_resources: activity.open_resources,
            active_timers: activity.active_timers,
            active_intervals: activity.active_intervals,
            active_js_streams: streams.active_js_streams,
            active_py_streams: streams.active_py_streams,
            total_js_streams: streams.total_js_streams,
            total_py_streams: streams.total_py_streams,
            bytes_streamed_js_to_py: streams.bytes_streamed_js_to_py,
            bytes_streamed_py_to_js: streams.bytes_streamed_py_to_js,
        }
    }
}

/// Whole milliseconds (floored), saturating at `u64::MAX`.
pub fn duration_to_u64_ms(duration: Duration) -> (ms: u64)
    ensures
        ms == span_ms(duration@),
{
    let millis: u128 = duration.as_millis();
    if millis <= u64::MAX as u128 {
        millis as u64
    } else {
        u64::MAX
    }
}

/// Recording a call raises the counter of its kind by one and no other counter.
pub proof fn law_record_counts_one_kind(
    stats: StatsView,
    kind: RuntimeCallKind,
    other: RuntimeCallKind,
    nanos: nat,
)
    requires
        stats.counters.len() == 6,
    ensures
        stats.recorded(kind, nanos).counters[kind_index(kind)] == bumped(
            stats.counters[kind_index(kind)],
        ),
        other != kind ==> stats.recorded(kind, nanos).counters[kind_index(other)]
            == stats.counters[kind_index(other)],
        stats.recorded(kind, nanos).total >= stats.total || stats.total > crate::time::MAX_NANOS,
{
}

} // verus!
