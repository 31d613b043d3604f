//! What errors and figures tell the caller.

use crate::error::{
    error_indicates_termination, python_exception, DetailsView, ErrorView, PyExceptionKind,
};
use crate::reports::{mirrors, stats_text, RuntimeStats};
use crate::stats::{
    kind_index, kind_name, occurrences, span_ms, RuntimeActivity, RuntimeCallKind,
    RuntimeStatsSnapshot, StatsView,
};
use crate::stream_laws::ends_with;
use crate::text::{decimal, has_prefix, has_substring, occurs_at};
use crate::threads::{one_fewer, one_more};
use crate::time::MAX_NANOS;
use vstd::prelude::*;

verus! {

/// Each kind of error is raised as a class of its own.
pub proof fn law_errors_are_raised_by_their_kind(err: ErrorView, context: Option<Seq<char>>)
    ensures
        python_exception(err, context).0 == PyExceptionKind::JavaScriptError <==> err is JavaScript,
        python_exception(err, context).0 == PyExceptionKind::RuntimeTimeout <==> err is Timeout,
        python_exception(err, context).0 == PyExceptionKind::Builtin <==> err is Internal,
        python_exception(err, context).0 == PyExceptionKind::RuntimeTerminated <==> err is Terminated,
        python_exception(err, context).0 == PyExceptionKind::RuntimeForceKilled
            <==> err is ForceKilled,
{
}

/// What an error says is what the exception says last; the context, if there is any,
/// comes before it, and without one nothing is added.
pub proof fn law_exceptions_say_what_happened(err: ErrorView, context: Seq<char>)
    ensures
        ({
            let said = match err {
                ErrorView::JavaScript(details) => details.summary,
                ErrorView::Timeout(text) => text,
                ErrorView::Internal(text) => text,
                ErrorView::ForceKilled(text) => text,
                ErrorView::Terminated(Some(reason)) => reason,
                ErrorView::Terminated(None) => Seq::empty(),
            };
            &&& said.len() > 0 ==> python_exception(err, None).1 == said
            &&& said.len() > 0 ==> python_exception(err, Some(Seq::empty())).1 == said
            &&& said.len() > 0 && context.len() > 0 ==> ends_with(
                python_exception(err, Some(context)).1,
                said,
            ) && has_prefix(python_exception(err, Some(context)).1, context) && python_exception(
                err,
                Some(context),
            ).1.len() > context.len() + said.len()
            &&& err is Terminated ==> python_exception(err, None).1.len() > 0
        }),
{
    reveal_strlit("Runtime terminated");
    reveal_strlit(": ");
    let said = python_exception(err, None).1;
    let whole = context + ": "@ + said;
    assert(whole.subrange(whole.len() - said.len(), whole.len() as int) =~= said);
    assert(whole.subrange(0, context.len() as int) =~= context);
}

/// An error that holds the engine's words for a stopped execution, wherever in its text,
/// tells of a termination; and so does the error of a terminated or abandoned runtime.
pub proof fn law_terminations_are_recognized(
    before: Seq<char>,
    after: Seq<char>,
    details: DetailsView,
    text: Seq<char>,
    reason: Option<Seq<char>>,
)
    ensures
        ({
            let worded = before + "execution terminated"@ + after;
            &&& error_indicates_termination(ErrorView::Internal(worded))
            &&& error_indicates_termination(ErrorView::Timeout(worded))
            &&& error_indicates_termination(
                ErrorView::JavaScript(DetailsView { summary: worded, ..details }),
            )
            &&& error_indicates_termination(
                ErrorView::JavaScript(DetailsView { message: Some(worded), ..details }),
            )
        }),
        error_indicates_termination(ErrorView::Terminated(reason)),
        error_indicates_termination(ErrorView::ForceKilled(text)),
        text.len() < 20 ==> !error_indicates_termination(ErrorView::Internal(text))
            && !error_indicates_termination(ErrorView::Timeout(text)),
        details.summary.len() < 20 && (details.message is Some ==> details.message->0.len() < 20)
            ==> !error_indicates_termination(ErrorView::JavaScript(details)),
{
    reveal_strlit("execution terminated");
    let words = "execution terminated"@;
    let worded = before + words + after;
    assert(worded.subrange(before.len() as int, (before.len() + words.len()) as int) =~= words);
    assert(occurs_at(worded, words, before.len() as int));
}

/// A call that was counted is the last one that is told of, and its time is added to the
/// total.
pub proof fn law_calls_are_counted(stats: StatsView, kind: RuntimeCallKind, nanos: nat)
    requires
        stats.counters.len() == 6,
        stats.total + nanos <= MAX_NANOS,
        stats.counters[kind_index(kind)] < u64::MAX,
    ensures
        stats.recorded(kind, nanos).total == stats.total + nanos,
        stats.recorded(kind, nanos).last == Some(nanos),
        stats.recorded(kind, nanos).last_kind == Some(kind),
        stats.recorded(kind, nanos).counters[kind_index(kind)] == stats.counters[kind_index(kind)]
            + 1,
        stats.recorded(kind, nanos).counters.len() == 6,
{
}

/// Every kind of call has a counter and a name of its own: those that its figure in a
/// snapshot is taken from and goes by.
pub proof fn law_call_kinds_are_told_apart(kind: RuntimeCallKind, other: RuntimeCallKind)
    ensures
        0 <= kind_index(kind) < 6,
        kind_index(kind) == kind_index(other) ==> kind == other,
        kind_name(kind) == kind_name(other) ==> kind == other,
        kind_index(RuntimeCallKind::EvalSync) == 0,
        kind_index(RuntimeCallKind::EvalAsync) == 1,
        kind_index(RuntimeCallKind::EvalModuleSync) == 2,
        kind_index(RuntimeCallKind::EvalModuleAsync) == 3,
        kind_index(RuntimeCallKind::CallFunctionAsync) == 4,
        kind_index(RuntimeCallKind::CallFunctionSync) == 5,
{
    reveal_strlit("eval_sync");
    reveal_strlit("eval_async");
    reveal_strlit("eval_module_sync");
    reveal_strlit("eval_module_async");
    reveal_strlit("call_function_async");
    reveal_strlit("call_function_sync");
    assert("eval_sync"@.len() == 9);
    assert("eval_async"@.len() == 10);
    assert("eval_module_sync"@.len() == 16);
    assert("eval_module_async"@.len() == 17);
    assert("call_function_async"@.len() == 19);
    assert("call_function_sync"@.len() == 18);
}

/// A span is told in the whole milliseconds that it holds.
pub proof fn law_spans_are_told_in_whole_milliseconds(nanos: nat)
    requires
        nanos <= MAX_NANOS,
        nanos / 1_000_000 <= u64::MAX,
    ensures
        span_ms(nanos) * 1_000_000 <= nanos,
        nanos < (span_ms(nanos) + 1) * 1_000_000,
{
}

/// Each activity is counted under its own kind, and under no other.
pub proof fn law_activities_are_counted(
    active: Seq<RuntimeActivity>,
    kind: RuntimeActivity,
    other: RuntimeActivity,
)
    ensures
        occurrences(Seq::empty(), kind) == 0,
        occurrences(active.push(kind), kind) == occurrences(active, kind) + 1,
        other != kind ==> occurrences(active.push(other), kind) == occurrences(active, kind),
{
    assert(active.push(kind).drop_last() =~= active);
    assert(active.push(other).drop_last() =~= active);
}

/// Every figure that Python reads is the one of the same name in the snapshot, and the
/// last kind of call goes by its name.
pub proof fn law_figures_are_those_of_the_snapshot(stats: RuntimeStats, s: RuntimeStatsSnapshot)
    requires
        mirrors(stats, s),
    ensures
        stats.last_execution_kind is Some <==> s.last_execution_kind is Some,
        s.last_execution_kind is Some ==> stats.last_execution_kind->0@ == kind_name(
            s.last_execution_kind->0,
        ),
        stats.heap_total_bytes == s.heap_total_bytes,
        stats.heap_used_bytes == s.heap_used_bytes,
        stats.external_memory_bytes == s.external_memory_bytes,
        stats.physical_total_bytes == s.physical_total_bytes,
        stats.total_execution_time_ms == s.total_execution_time_ms,
        stats.last_execution_time_ms == s.last_execution_time_ms,
        stats.eval_sync_count == s.eval_sync_count,
        stats.eval_async_count == s.eval_async_count,
        stats.eval_module_sync_count == s.eval_module_sync_count,
        stats.eval_module_async_count == s.eval_module_async_count,
        stats.call_function_async_count == s.call_function_async_count,
        stats.call_function_sync_count == s.call_function_sync_count,
        stats.active_async_ops == s.active_async_ops,
        stats.open_resources == s.open_resources,
        stats.active_timers == s.active_timers,
        stats.active_intervals == s.active_intervals,
        stats.active_js_streams == s.active_js_streams,
        stats.active_py_streams == s.active_py_streams,
        stats.total_js_streams == s.total_js_streams,
        stats.total_py_streams == s.total_py_streams,
        stats.bytes_streamed_js_to_py == s.bytes_streamed_js_to_py,
        stats.bytes_streamed_py_to_js == s.bytes_streamed_py_to_js,
{
}

/// The text of the figures says, under its name, each figure that it shows.
pub proof fn law_figures_are_shown(stats: RuntimeStats)
    ensures
        has_prefix(
            stats_text(stats),
            "RuntimeStats(heap_used_bytes="@ + decimal(stats.heap_used_bytes as nat)
                + ", total_execution_time_ms="@ + decimal(stats.total_execution_time_ms as nat),
        ),
        has_substring(
            stats_text(stats),
            ", active_async_ops="@ + decimal(stats.active_async_ops as nat)
                + ", open_resources="@ + decimal(stats.open_resources as nat),
        ),
        ends_with(
            stats_text(stats),
            ", active_py_streams="@ + decimal(stats.active_py_streams as nat) + ")"@,
        ),
{
    let text = stats_text(stats);
    let start = "RuntimeStats(heap_used_bytes="@ + decimal(stats.heap_used_bytes as nat)
        + ", total_execution_time_ms="@ + decimal(stats.total_execution_time_ms as nat);
    assert(text.subrange(0, start.len() as int) =~= start);
    let end = ", active_py_streams="@ + decimal(stats.active_py_streams as nat) + ")"@;
    assert(text.subrange(text.len() - end.len(), text.len() as int) =~= end);
    let kind = match stats.last_execution_kind {
        Some(text) => text@,
        None => "None"@,
    };
    let at = (start + ", last_execution_kind="@ + kind).len();
    let middle = ", active_async_ops="@ + decimal(stats.active_async_ops as nat)
        + ", open_resources="@ + decimal(stats.open_resources as nat);
    assert(text.subrange(at as int, (at + middle.len()) as int) =~= middle);
    assert(occurs_at(text, middle, at as int));
}

/// A thread that starts is one more, a thread that ends one fewer.
pub proof fn law_threads_are_counted(active: usize)
    ensures
        active < usize::MAX ==> one_more(active) == active + 1,
        active > 0 ==> one_fewer(active) == active - 1,
{
}

} // verus!
