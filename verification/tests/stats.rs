use pydeno::reports::{InspectorEndpoints, RuntimeStats};
use pydeno::stats::{
    duration_to_u64_ms, ActivitySummary, HeapSnapshot, RuntimeActivity, RuntimeActivitySnapshot,
    RuntimeCallKind, RuntimeStatsSnapshot, RuntimeStatsState,
};
use pydeno::stream::StreamStatsSnapshot;
use pydeno::threads::{
    active_runtime_threads, initialized, spawn_failure, RuntimeThreadGuard, RuntimeThreads,
};
use pydeno::error::RuntimeError;
use pydeno::time::Duration;

#[test]
fn test_stats_state_record_and_snapshot() {
    let mut state = RuntimeStatsState::default();
    state.record(RuntimeCallKind::EvalSync, Duration::from_millis(10));
    state.record(RuntimeCallKind::EvalAsync, Duration::from_millis(25));

    let snapshot = state.snapshot();
    assert_eq!(snapshot.total_execution, Duration::from_millis(35));
    assert_eq!(snapshot.last_call_kind, Some(RuntimeCallKind::EvalAsync));
    assert_eq!(snapshot.last_execution, Some(Duration::from_millis(25)));
    assert_eq!(snapshot.counters[RuntimeCallKind::EvalSync as usize], 1);
    assert_eq!(snapshot.counters[RuntimeCallKind::EvalAsync as usize], 1);

    let rendered = RuntimeStatsSnapshot::new(
        HeapSnapshot::default(),
        snapshot,
        ActivitySummary::default(),
        StreamStatsSnapshot::default(),
    );
    assert_eq!(rendered.eval_async_count, 1);
    assert_eq!(rendered.active_js_streams, 0);
}

#[test]
fn every_kind_has_its_own_counter() {
    let kinds = [
        RuntimeCallKind::EvalSync,
        RuntimeCallKind::EvalAsync,
        RuntimeCallKind::EvalModuleSync,
        RuntimeCallKind::EvalModuleAsync,
        RuntimeCallKind::CallFunctionAsync,
        RuntimeCallKind::CallFunctionSync,
    ];
    let names = [
        "eval_sync",
        "eval_async",
        "eval_module_sync",
        "eval_module_async",
        "call_function_async",
        "call_function_sync",
    ];
    for i in 0..6 {
        let mut state = RuntimeStatsState::default();
        state.record(kinds[i], Duration::from_millis(1));
        let snapshot = state.snapshot();
        for k in 0..6 {
            assert_eq!(snapshot.counters[k], if k == i { 1 } else { 0 });
        }
        assert_eq!(kinds[i].as_str(), names[i]);
        assert_eq!(kinds[i].index(), i);
    }
}

#[test]
fn activities_are_counted_by_kind() {
    let summary = ActivitySummary::from_snapshot(RuntimeActivitySnapshot {
        active: vec![
            RuntimeActivity::AsyncOp,
            RuntimeActivity::Timer,
            RuntimeActivity::AsyncOp,
            RuntimeActivity::Interval,
            RuntimeActivity::Resource,
        ],
    });
    assert_eq!(summary.active_async_ops, 2);
    assert_eq!(summary.open_resources, 1);
    assert_eq!(summary.active_timers, 1);
    assert_eq!(summary.active_intervals, 1);
}

#[test]
fn long_spans_are_held() {
    assert_eq!(duration_to_u64_ms(Duration::from_millis(12)), 12);
    assert_eq!(duration_to_u64_ms(Duration::max()), u64::MAX);
    assert_eq!(duration_to_u64_ms(Duration::from_nanos(1_999_999)), 1);
}

#[test]
fn figures_are_shown() {
    let mut state = RuntimeStatsState::default();
    state.record(RuntimeCallKind::CallFunctionSync, Duration::from_millis(7));
    let heap = HeapSnapshot {
        heap_total_bytes: 4,
        heap_used_bytes: 3,
        external_memory_bytes: 2,
        physical_total_bytes: 1,
    };
    let stats = RuntimeStats::from_snapshot(RuntimeStatsSnapshot::new(
        heap,
        state.snapshot(),
        ActivitySummary::default(),
        StreamStatsSnapshot::default(),
    ));
    assert_eq!(stats.last_execution_kind, Some("call_function_sync".to_string()));
    assert_eq!(
        stats.repr(),
        "RuntimeStats(heap_used_bytes=3, total_execution_time_ms=7, last_execution_kind=call_function_sync, active_async_ops=0, open_resources=0, eval_sync_count=0, call_function_async_count=0, call_function_sync_count=1, active_js_streams=0, active_py_streams=0)"
    );
    let idle = RuntimeStats::from_snapshot(RuntimeStatsSnapshot::new(
        heap,
        RuntimeStatsState::default().snapshot(),
        ActivitySummary::default(),
        StreamStatsSnapshot::default(),
    ));
    assert!(idle.repr().contains("last_execution_kind=None,"));
}

#[test]
fn endpoints_are_shown() {
    let text = |s: &str| s.to_string();
    let endpoints = InspectorEndpoints {
        id: text("a"),
        websocket_url: text("ws://x"),
        devtools_frontend_url: text("devtools://y"),
        title: text("t"),
        description: text("d"),
        target_url: text("u"),
        favicon_url: text("f"),
        host: text("h"),
    };
    assert_eq!(
        endpoints.repr(),
        "InspectorEndpoints(id=a, websocket_url=ws://x, devtools_frontend_url=devtools://y)"
    );
}

#[test]
fn threads_are_counted_while_they_run() {
    let mut threads = RuntimeThreads::new();
    let first = RuntimeThreadGuard::new(&mut threads);
    let second = RuntimeThreadGuard::new(&mut threads);
    assert_eq!(active_runtime_threads(&threads), 2);
    first.release(&mut threads);
    assert_eq!(active_runtime_threads(&threads), 1);
    second.release(&mut threads);
    assert_eq!(active_runtime_threads(&threads), 0);
}

#[test]
fn thread_failures() {
    assert!(matches!(
        spawn_failure("no memory"),
        RuntimeError::Internal { context } if context == "Failed to spawn runtime thread: no memory"
    ));
    assert!(matches!(initialized(Some(Ok(3))), Ok(3)));
    assert!(matches!(
        initialized::<u8>(None),
        Err(RuntimeError::Internal { context }) if context == "Runtime thread initialization failed"
    ));
}
