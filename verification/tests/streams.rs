use pydeno::error::RuntimeError;
use pydeno::js_value::{JSValue, ObjectMap};
use pydeno::limits::SerializationLimits;
use pydeno::stream::{
    finish_cancel, method_error, CloseOutcome, JsStreamRegistry, MethodFailure, PullOutcome,
    PyStreamRegistry, StreamChunk, StreamMethod, StreamStatsSnapshot,
};

fn text_of(err: RuntimeError) -> String {
    match err {
        RuntimeError::Internal { context } => context,
        other => panic!("unexpected error {:?}", other),
    }
}

#[test]
fn chunks_go_there_and_back() {
    let chunk = StreamChunk { done: false, value: Some(JSValue::Int(3)) };
    let copy = chunk.clone();
    assert!(!copy.done && matches!(copy.value, Some(JSValue::Int(3))));
    let back = StreamChunk::from_js_value(chunk.to_js_value()).unwrap();
    assert!(!back.done);
    assert!(matches!(back.value, Some(JSValue::Int(3))));
    let last = StreamChunk { done: true, value: None };
    let back = StreamChunk::from_js_value(last.to_js_value()).unwrap();
    assert!(back.done);
    assert!(back.value.is_none());
}

#[test]
fn payloads_that_are_no_chunks() {
    let shown = StreamChunk::from_js_value(JSValue::Int(1)).unwrap_err();
    let text = text_of(shown.into_runtime_error("Int(1)"));
    assert!(text.contains("Int(1)"), "{}", text);
    let mut map = ObjectMap::new();
    map.insert("done".to_string(), JSValue::Int(1));
    assert!(StreamChunk::from_js_value(JSValue::Object(map)).is_err());
    assert!(StreamChunk::from_js_value(JSValue::Object(ObjectMap::new())).is_err());
}

#[test]
fn js_streams_are_counted() {
    let mut streams = JsStreamRegistry::new();
    let first = streams.register_stream(10);
    let second = streams.register_stream(11);
    assert_ne!(first, second);
    assert!(matches!(streams.ensure_reader(first), Ok(e) if e.stream == 10 && e.reader.is_none()));
    streams.attach_reader(first, 12);
    assert!(matches!(streams.ensure_reader(first), Ok(e) if e.reader == Some(12)));
    assert_eq!(text_of(streams.ensure_reader(99).unwrap_err()), "Unknown stream id");
    let chunk = StreamChunk { done: false, value: Some(JSValue::Bytes(vec![1, 2, 3])) };
    streams.update_stats_after_chunk(first, &chunk);
    let text = StreamChunk { done: false, value: Some(JSValue::String("abcd".to_string())) };
    streams.update_stats_after_chunk(first, &text);
    streams.release(first);
    streams.release(first);
    let snapshot = streams.stats_snapshot();
    assert_eq!(snapshot.active_js_streams, 1);
    assert_eq!(snapshot.total_js_streams, 2);
    assert_eq!(snapshot.bytes_streamed_js_to_py, 3);
}

#[test]
fn python_streams_end_once() {
    let mut streams = PyStreamRegistry::new(SerializationLimits::new(1, 2));
    streams.add_release_listener(50);
    streams.add_release_listener(51);
    let id = streams.register_iterable(20, 21);
    let entry = streams.begin_pull(id).unwrap();
    assert_eq!((entry.iterable, entry.task_locals, entry.iterator), (20, 21, None));
    streams.attach_iterator(id, 22);
    assert_eq!(streams.begin_pull(id).unwrap().iterator, Some(22));
    let (chunk, told) = streams.pull_next(id, PullOutcome::Value(JSValue::Bytes(vec![9, 9])));
    assert!(!chunk.unwrap().done);
    assert!(told.is_empty());
    let (last, told) = streams.pull_next(id, PullOutcome::Stopped);
    assert!(last.unwrap().done);
    assert_eq!(told, vec![50, 51]);
    assert!(streams.release(id).is_empty());
    assert_eq!(text_of(streams.begin_pull(id).unwrap_err()), "Unknown Python stream id");
    let snapshot = streams.stats_snapshot();
    assert_eq!(snapshot.active_py_streams, 0);
    assert_eq!(snapshot.total_py_streams, 1);
    assert_eq!(snapshot.bytes_streamed_py_to_js, 2);
    assert_eq!(streams.serialization_limits().max_bytes, 2);
}

#[test]
fn cancelling_takes_the_stream_out() {
    let mut streams = PyStreamRegistry::new(SerializationLimits::new(1, 2));
    streams.add_release_listener(5);
    let id = streams.register_iterable(20, 21);
    streams.attach_iterator(id, 22);
    let plan = streams.cancel(id).unwrap();
    assert_eq!(plan.entry.iterator, Some(22));
    assert_eq!(plan.notify, vec![5]);
    assert!(streams.cancel(id).is_none());
}

#[test]
fn pull_failures_are_named() {
    let mut streams = PyStreamRegistry::new(SerializationLimits::new(1, 2));
    let id = streams.register_iterable(20, 21);
    let mut failure = |outcome: PullOutcome| text_of(streams.pull_next(id, outcome).0.unwrap_err());
    let why = || "why".to_string();
    assert_eq!(failure(PullOutcome::IteratorFailed(why())), "Failed to get __aiter__: why");
    assert_eq!(failure(PullOutcome::NextFailed(why())), "__anext__ failed: why");
    assert_eq!(failure(PullOutcome::AwaitFailed(why())), "Failed to await __anext__: why");
    assert_eq!(failure(PullOutcome::ConversionFailed(why())), "Chunk conversion failed: why");
    assert_eq!(failure(PullOutcome::Errored(why())), "Python stream errored: why");
}

#[test]
fn close_failures_are_errors() {
    assert!(finish_cancel(CloseOutcome::Closed).is_ok());
    assert!(finish_cancel(CloseOutcome::CloseFailed("x".to_string())).is_err());
    assert!(finish_cancel(CloseOutcome::AwaitFailed("x".to_string())).is_err());
    assert!(finish_cancel(CloseOutcome::Errored("x".to_string())).is_err());
}

#[test]
fn method_failures_are_named() {
    assert_eq!(
        text_of(method_error(StreamMethod::GetReader, MethodFailure::Missing)),
        "ReadableStream.getReader missing"
    );
    assert_eq!(
        text_of(method_error(StreamMethod::Read, MethodFailure::WrongResult)),
        "Reader.read must return a promise"
    );
}

#[test]
fn figures_of_both_sides_are_added() {
    let mut a = StreamStatsSnapshot {
        active_js_streams: 1,
        active_py_streams: 0,
        total_js_streams: u64::MAX,
        total_py_streams: 0,
        bytes_streamed_js_to_py: 7,
        bytes_streamed_py_to_js: 0,
    };
    let b = StreamStatsSnapshot {
        active_js_streams: 2,
        active_py_streams: 3,
        total_js_streams: 1,
        total_py_streams: 4,
        bytes_streamed_js_to_py: 1,
        bytes_streamed_py_to_js: 6,
    };
    a.merge(&b);
    assert_eq!(a.active_js_streams, 3);
    assert_eq!(a.active_py_streams, 3);
    assert_eq!(a.total_js_streams, u64::MAX);
    assert_eq!(a.bytes_streamed_js_to_py, 8);
    assert_eq!(a.bytes_streamed_py_to_js, 6);
}
