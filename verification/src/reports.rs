//! Figures and texts that Python shows of a runtime.

use crate::stats::{kind_name, RuntimeStatsSnapshot};
use crate::text::{decimal, push_decimal};
use vstd::prelude::*;

verus! {

/// The figures of a runtime, as Python reads them.
#[derive(Debug)]
pub struct RuntimeStats {
    pub last_execution_kind: Option<String>,
    pub heap_total_bytes: u64,
    pub heap_used_bytes: u64,
    pub external_memory_bytes: u64,
    pub physical_total_bytes: u64,
    pub total_execution_time_ms: u64,
    pub last_execution_time_ms: u64,
    pub eval_sync_count: u64,
    pub eval_async_count: u64,
    pub eval_module_sync_count: u64,
    pub eval_module_async_count: u64,
    pub call_function_async_count: u64,
    pub call_function_sync_count: u64,
    pub active_async_ops: u64,
    pub open_resources: u64,
    pub active_timers: u64,
    pub active_intervals: u64,
    pub active_js_streams: u64,
    pub active_py_streams: u64,
    pub total_js_streams: u64,
    pub total_py_streams: u64,
    pub bytes_streamed_js_to_py: u64,
    pub bytes_streamed_py_to_js: u64,
}

/// Every figure of a snapshot is the figure of the same name.
pub open spec fn mirrors(stats: RuntimeStats, s: RuntimeStatsSnapshot) -> bool {
    &&& match (stats.last_execution_kind, s.last_execution_kind) {
        (Some(text), Some(kind)) => text@ == kind_name(kind),
        (None, None) => true,
        _ => false,
    }
    &&& stats.heap_total_bytes == s.heap_total_bytes
    &&& stats.heap_used_bytes == s.heap_used_bytes
    &&& stats.external_memory_bytes == s.external_memory_bytes
    &&& stats.physical_total_bytes == s.physical_total_bytes
    &&& stats.total_execution_time_ms == s.total_execution_time_ms
    &&& stats.last_execution_time_ms == s.last_execution_time_ms
    &&& stats.eval_sync_count == s.eval_sync_count
    &&& stats.eval_async_count == s.eval_async_count
    &&& stats.eval_module_sync_count == s.eval_module_sync_count
    &&& stats.eval_module_async_count == s.eval_module_async_count
    &&& stats.call_function_async_count == s.call_function_async_count
    &&& stats.call_function_sync_count == s.call_function_sync_count
    &&& stats.active_async_ops == s.active_async_ops
    &&& stats.open_resources == s.open_resources
    &&& stats.active_timers == s.active_timers
    &&& stats.active_intervals == s.active_intervals
    &&& stats.active_js_streams == s.active_js_streams
    &&& stats.active_py_streams == s.active_py_streams
    &&& stats.total_js_streams == s.total_js_streams
    &&& stats.total_py_streams == s.total_py_streams
    &&& stats.bytes_streamed_js_to_py == s.bytes_streamed_js_to_py
    &&& stats.bytes_streamed_py_to_js == s.bytes_streamed_py_to_js
}

/// How the figures are shown.
pub open spec fn stats_text(stats: RuntimeStats) -> Seq<char> {
    "RuntimeStats(heap_used_bytes="@ + decimal(stats.heap_used_bytes as nat)
        + ", total_execution_time_ms="@ + decimal(stats.total_execution_time_ms as nat)
        + ", last_execution_kind="@ + (match stats.last_execution_kind {
        Some(text) => text@,
        None => "None"@,
    }) + ", active_async_ops="@ + decimal(stats.active_async_ops as nat) + ", open_resources="@
        + decimal(stats.open_resources as nat) + ", eval_sync_count="@
        + decimal(stats.eval_sync_count as nat) + ", call_function_async_count="@
        + decimal(stats.call_function_async_count as nat) + ", call_function_sync_count="@
        + decimal(stats.call_function_sync_count as nat) + ", active_js_streams="@
        + decimal(stats.active_js_streams as nat) + ", active_py_streams="@
        + decimal(stats.active_py_streams as nat) + ")"@
}

fn field(text: &mut String, label: &str, value: u64)
    ensures
        final(text)@ == old(text)@ + label@ + decimal(value as nat),
{
    text.append(label);
    push_decimal(text, value);
}

impl RuntimeStats {
    pub fn from_snapshot(s: RuntimeStatsSnapshot) -> (stats: Self)
        ensures
            mirrors(stats, s),
    {
        RuntimeStats {
            last_execution_kind: match s.last_execution_kind {
                Some(kind) => Some(kind.as_str().to_owned()),
                None => None,
            },
            heap_total_bytes: s.heap_total_bytes,
            heap_used_bytes: s.heap_used_bytes,
            external_memory_bytes: s.external_memory_bytes,
            physical_total_bytes: s.physical_total_bytes,
            total_execution_time_ms: s.total_execution_time_ms,
            last_execution_time_ms: s.last_execution_time_ms,
            eval_sync_count: s.eval_sync_count,
            eval_async_count: s.eval_async_count,
            eval_module_sync_count: s.eval_module_sync_count,
            eval_module_async_count: s.eval_module_async_count,
            call_function_async_count: s.call_function_async_count,
            call_function_sync_count: s.call_function_sync_count,
            active_async_ops: s.active_async_ops,
            open_resources: s.open_resources,
            active_timers: s.active_timers,
            active_intervals: s.active_intervals,
            active_js_streams: s.active_js_streams,
            active_py_streams: s.active_py_streams,
            total_js_streams: s.total_js_streams,
            total_py_streams: s.total_py_streams,
            bytes_streamed_js_to_py: s.bytes_streamed_js_to_py,
            bytes_streamed_py_to_js: s.bytes_streamed_py_to_js,
        }
    }

    /// How Python shows the figures.
    pub fn repr(&self) -> (text: String)
        ensures
            text@ == stats_text(*self),
    {
        let mut text = "".to_owned();
        field(&mut text, "RuntimeStats(heap_used_bytes=", self.heap_used_bytes);
        field(&mut text, ", total_execution_time_ms=", self.total_execution_time_ms);
        text.append(", last_execution_kind=");
        match &self.last_execution_kind {
            Some(kind) => text.append(kind),
            None => text.append("None"),
        }
        field(&mut text, ", active_async_ops=", self.active_async_ops);
        field(&mut text, ", open_resources=", self.open_resources);
        field(&mut text, ", eval_sync_count=", self.eval_sync_count);
        field(&mut text, ", call_function_async_count=", self.call_function_async_count);
        field(&mut text, ", call_function_sync_count=", self.call_function_sync_count);
        field(&mut text, ", active_js_streams=", self.active_js_streams);
        field(&mut text, ", active_py_streams=", self.active_py_streams);
        text.append(")");
        proof {
            reveal_strlit("");
        }
        assert(""@ + "RuntimeStats(heap_used_bytes="@ =~= "RuntimeStats(heap_used_bytes="@);
        text
    }
}

/// Where a debugger finds the inspector of a runtime.
#[derive(Debug)]
pub struct InspectorEndpoints {
    pub id: String,
    pub websocket_url: String,
    pub devtools_frontend_url: String,
    pub title: String,
    pub description: String,
    pub target_url: String,
    pub favicon_url: String,
    pub host: String,
}

impl InspectorEndpoints {
    /// How Python shows the endpoints.
    pub fn repr(&self) -> (text: String)
        ensures
            text@ == "InspectorEndpoints(id="@ + self.id@ + ", websocket_url="@
                + self.websocket_url@ + ", devtools_frontend_url="@ + self.devtools_frontend_url@
                + ")"@,
    {
        let mut text = "InspectorEndpoints(id=".to_owned();
        text.append(&self.id);
        text.append(", websocket_url=");
        text.append(&self.websocket_url);
        text.append(", devtools_frontend_url=");
        text.append(&self.devtools_frontend_url);
        text.append(")");
        text
    }
}

} // verus!
