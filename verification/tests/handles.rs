use pydeno::commands::RuntimeCommand;
use pydeno::config::RuntimeConfig;
use pydeno::engine::EngineFailure;
use pydeno::error::{
    js_error_indicates_termination, runtime_error_indicates_termination,
    runtime_error_to_py_with, JsExceptionDetails, PyExceptionKind, RuntimeError,
};
use pydeno::handle::{
    abandoned_message, awaited, recv_failure, send_failure, unacknowledged_message, AwaitStep,
    Awaited, CloseStep, HandleState, Received, RecvNext, RecvWait, RuntimeHandle, TerminateStep,
};
use pydeno::js_value::JSValue;
use pydeno::limits::SerializationLimits;
use pydeno::proxies::{
    Finalize, FunctionClose, JsFunction, JsFunctionFinalizer, JsStream, PyStreamFinalizer,
    PyStreamSource, StreamEnd, TerminationHandle,
};
use pydeno::runtime::{
    takes_result, CallContext, CancelCallback, CloseAction, Runtime,
};
use pydeno::stream::{PyStreamRegistry, StreamChunk};
use pydeno::termination::{TerminationController, Watchdog, WatchdogVerdict};
use pydeno::time::Duration;

fn ms(n: u64) -> Duration {
    Duration::from_millis(n)
}

fn handle_with(grace: Option<Duration>) -> RuntimeHandle {
    let mut config = RuntimeConfig::default();
    config.force_kill_grace = grace;
    RuntimeHandle::spawn(&config)
}

fn context_of(err: RuntimeError) -> String {
    match err {
        RuntimeError::Internal { context } => context,
        other => panic!("unexpected error {:?}", other),
    }
}

#[test]
fn commands_are_sent_while_the_runtime_lives() {
    let handle = handle_with(None);
    let mut state = HandleState::new();
    let mut termination = TerminationController::new();
    match handle.eval_sync(&state, &termination, "1 + 1", 5).unwrap() {
        RuntimeCommand::Eval { code, responder } => assert_eq!((code.as_str(), responder), ("1 + 1", 5)),
        other => panic!("unexpected {:?}", other),
    }
    state.shutdown = true;
    assert_eq!(
        context_of(handle.get_stats(&state, &termination, 5).unwrap_err()),
        "Runtime has been shut down"
    );
    termination.ensure_reason("enough");
    termination.request();
    assert!(matches!(
        handle.get_stats(&state, &termination, 5),
        Err(RuntimeError::Terminated { reason: Some(r) }) if r == "enough"
    ));
    assert!(handle.is_shutdown(&state, &termination));
}

#[test]
fn failures_of_the_channel_are_named() {
    let call = RuntimeCommand::CallFunctionSync {
        fn_id: 1,
        args: vec![],
        timeout_ms: None,
        responder: 2,
    };
    assert_eq!(context_of(send_failure(&call)), "Failed to send call_function_sync command");
    assert_eq!(context_of(recv_failure(awaited(&call))), "Failed to receive function call result");
    let read = RuntimeCommand::StreamRead { stream_id: 1, responder: 2 };
    assert_eq!(context_of(recv_failure(awaited(&read))), "Failed to receive stream chunk");
    let exposure = RuntimeCommand::SetPythonOpExposure { op_id: 1, exposed: true, responder: 2 };
    assert_eq!(context_of(send_failure(&exposure)), "Failed to send op exposure command");
}

#[test]
fn an_unresponsive_runtime_is_abandoned_after_the_grace() {
    let handle = handle_with(Some(ms(100)));
    let mut state = HandleState::new();
    let mut termination = TerminationController::new();
    let mut wait = RecvWait { termination_seen_at: None };
    let what = Awaited::Escalating("eval");
    assert_eq!(handle.recv_slice(what), Some(ms(5)));
    let again = handle.recv_result::<u8>(
        &mut state, &mut termination, &mut wait, what, Received::TimedOut, ms(10));
    assert!(matches!(again, RecvNext::Again));
    termination.request();
    let seen = handle.recv_result::<u8>(
        &mut state, &mut termination, &mut wait, what, Received::TimedOut, ms(20));
    assert!(matches!(seen, RecvNext::Again));
    let almost = handle.recv_result::<u8>(
        &mut state, &mut termination, &mut wait, what, Received::TimedOut, ms(119));
    assert!(matches!(almost, RecvNext::Again));
    let killed = handle.recv_result::<u8>(
        &mut state, &mut termination, &mut wait, what, Received::TimedOut, ms(120));
    match killed {
        RecvNext::Done(Err(RuntimeError::ForceKilled { context })) => assert_eq!(
            context,
            "Runtime did not acknowledge termination within 100ms and was force-killed during eval; the runtime thread has been abandoned and this Runtime is no longer usable -- create a new one"
        ),
        other => panic!("unexpected {:?}", other),
    }
    assert!(state.shutdown);
    assert!(termination.is_terminated());
}

#[test]
fn without_a_grace_nothing_is_abandoned() {
    let handle = handle_with(None);
    let mut state = HandleState::new();
    let mut termination = TerminationController::new();
    termination.request();
    let mut wait = RecvWait { termination_seen_at: None };
    let what = Awaited::Escalating("eval");
    assert_eq!(handle.recv_slice(what), None);
    assert!(matches!(
        handle.recv_result::<u8>(
            &mut state, &mut termination, &mut wait, what, Received::TimedOut, ms(1_000_000)),
        RecvNext::Again
    ));
    assert!(matches!(
        handle.recv_result(
            &mut state, &mut termination, &mut wait, what, Received::Value(7u8), ms(1)),
        RecvNext::Done(Ok(7))
    ));
    assert!(matches!(
        handle.recv_result::<u8>(
            &mut state, &mut termination, &mut wait, what, Received::Disconnected, ms(1)),
        RecvNext::Done(Err(RuntimeError::Internal { context }))
            if context == "Failed to receive eval result"
    ));
}

#[test]
fn terminating_goes_through_its_steps() {
    let handle = handle_with(Some(Duration::from_secs(2)));
    let mut state = HandleState::new();
    let mut termination = TerminationController::new();
    assert_eq!(handle.terminate(&mut state, &mut termination), TerminateStep::Send);
    assert_eq!(termination.reason(), Some("Terminated by host request".to_string()));
    assert_eq!(handle.terminate(&mut state, &mut termination), TerminateStep::AwaitOther);
    assert!(!termination.is_latched());
    assert!(handle.terminate_sent(&mut termination, true).is_ok());
    assert!(termination.is_latched());
    assert!(handle.terminate_sent(&mut termination, false).is_err());
    match handle.await_termination(&mut state, &mut termination, ms(0), ms(10)) {
        AwaitStep::Sleep(span) => assert_eq!(span, ms(1)),
        other => panic!("unexpected {:?}", other),
    }
    assert!(handle.terminate_confirmed(&mut state, Ok(Ok(()))).is_ok());
    assert!(state.shutdown);
    match handle.await_termination(&mut state, &mut termination, ms(0), ms(2000)) {
        AwaitStep::Done(Err(RuntimeError::ForceKilled { context })) => assert_eq!(
            context,
            "Runtime did not acknowledge an in-progress termination within 2s and was force-killed; the runtime thread has been abandoned and this Runtime is no longer usable -- create a new one"
        ),
        other => panic!("unexpected {:?}", other),
    }
    assert_eq!(handle.terminate(&mut state, &mut termination), TerminateStep::Done);
    assert!(matches!(
        handle.await_termination(&mut state, &mut termination, ms(0), ms(2000)),
        AwaitStep::Done(Ok(()))
    ));
}

#[test]
fn closing_goes_through_its_steps() {
    let mut handle = handle_with(None);
    let mut state = HandleState::new();
    let termination = TerminationController::new();
    assert_eq!(handle.close(&mut state, &termination), CloseStep::Send);
    assert!(handle.get_stats(&state, &termination, 1).is_err());
    assert_eq!(handle.close(&mut state, &termination), CloseStep::Done);
    assert_eq!(
        context_of(handle.close_confirmed(&mut state, false, false).unwrap_err()),
        "Failed to send shutdown command"
    );
    assert_eq!(
        context_of(handle.close_confirmed(&mut state, true, false).unwrap_err()),
        "Failed to confirm runtime shutdown"
    );
    assert!(handle.close_confirmed(&mut state, true, true).is_ok());
    assert!(state.shutdown);
}

#[test]
fn ids_are_tracked() {
    let handle = handle_with(None);
    let mut state = HandleState::new();
    handle.track_function_id(&mut state, 1);
    handle.track_function_id(&mut state, 2);
    handle.track_function_id(&mut state, 2);
    handle.untrack_function_id(&mut state, 1);
    assert!(handle.is_function_tracked(&state, 2));
    assert!(!handle.is_function_tracked(&state, 1));
    assert_eq!(handle.tracked_function_count(&state), 1);
    assert_eq!(handle.drain_tracked_function_ids(&mut state), vec![2]);
    assert_eq!(handle.tracked_function_count(&state), 0);
    handle.track_js_stream_id(&mut state, 5);
    handle.track_js_stream_id(&mut state, 6);
    handle.untrack_js_stream_id(&mut state, 5);
    assert_eq!(handle.drain_tracked_js_stream_ids(&mut state), vec![6]);
    handle.track_py_stream_id(&mut state, 8);
    handle.untrack_py_stream_id(&mut state, 8);
    assert!(handle.drain_tracked_py_stream_ids(&mut state).is_empty());
    assert_eq!(handle.serialization_limits().max_depth, RuntimeConfig::default().max_serialization_depth);
}

#[test]
fn read_streams_are_untracked_at_their_end() {
    let handle = handle_with(None);
    let mut state = HandleState::new();
    handle.track_js_stream_id(&mut state, 5);
    let chunk = StreamChunk { done: false, value: Some(JSValue::Int(1)) };
    assert!(handle.stream_chunk(&mut state, 5, chunk.to_js_value()).is_ok());
    let last = StreamChunk { done: true, value: None };
    assert!(handle.stream_chunk(&mut state, 5, last.to_js_value()).unwrap().done);
    assert!(handle.drain_tracked_js_stream_ids(&mut state).is_empty());
    handle.track_js_stream_id(&mut state, 6);
    assert!(handle.stream_gone(&mut state, 6, Err(RuntimeError::internal_text("x"))).is_err());
    assert!(handle.stream_gone(&mut state, 6, Ok(())).is_ok());
    assert!(handle.drain_tracked_js_stream_ids(&mut state).is_empty());
}

#[test]
fn functions_are_closed_once() {
    let handle = handle_with(None);
    let mut state = HandleState::new();
    let termination = TerminationController::new();
    let mut function = JsFunction::new(&handle, &mut state, 3, SerializationLimits::new(1, 1));
    assert_eq!(function.repr(), "<JsFunction id=3>");
    assert_eq!(function.live_handle(), Ok(3));
    assert_eq!(function.close(), Ok(FunctionClose::Release));
    assert_eq!(function.close(), Ok(FunctionClose::Nothing));
    assert_eq!(function.repr(), "<JsFunction (closed)>");
    assert_eq!(function.function_id_for_transfer(false).unwrap_err(), "Function has been closed");
    let mut finalizer = JsFunctionFinalizer { attached: true, fn_id: 3 };
    assert_eq!(finalizer.call(&handle, &mut state, &termination), Finalize::Release);
    assert_eq!(finalizer.call(&handle, &mut state, &termination), Finalize::Nothing);
    function.released(&handle, &mut state);
    assert!(!handle.is_function_tracked(&state, 3));
    let mut late = JsFunctionFinalizer { attached: true, fn_id: 3 };
    assert_eq!(late.call(&handle, &mut state, &termination), Finalize::Nothing);
}

#[test]
fn streams_are_cancelled_once() {
    let handle = handle_with(None);
    let mut state = HandleState::new();
    let mut stream = JsStream::new(&handle, &mut state, 4);
    assert_eq!(stream.repr(), "<JsStream id=4>");
    assert!(matches!(stream.anext(), Ok(4)));
    let chunk = StreamChunk { done: false, value: None };
    assert!(matches!(stream.chunk_read(chunk), Ok(None)));
    assert!(stream.state.cancel());
    assert!(!stream.state.cancel());
    assert!(matches!(stream.anext(), Err(StreamEnd::Stop("Stream closed"))));
    assert_eq!(stream.repr(), "<JsStream (closed)>");
    let mut other = JsStream::new(&handle, &mut state, 5);
    let last = StreamChunk { done: true, value: None };
    assert!(matches!(other.chunk_read(last), Err(StreamEnd::Stop(""))));
    assert!(!other.state.cancel());
}

#[test]
fn python_sources_are_closed_once() {
    let handle = handle_with(None);
    let mut state = HandleState::new();
    let mut registry = PyStreamRegistry::new(SerializationLimits::new(1, 1));
    let mut source = PyStreamSource::new(&handle, &mut state, &mut registry, 8, 9);
    assert_eq!(source.repr(), format!("<PyStreamSource id={}>", source.stream_id));
    assert_eq!(source.stream_id_for_transfer(), Ok(source.stream_id));
    assert!(source.close_py());
    assert!(!source.close_py());
    assert_eq!(source.stream_id_for_transfer().unwrap_err(), "Stream has been closed");
    let mut finalizer = PyStreamFinalizer { attached: true, stream_id: source.stream_id };
    assert!(finalizer.call(&handle, &mut state, &mut registry).is_some());
    assert!(finalizer.call(&handle, &mut state, &mut registry).is_none());
    assert!(handle.release_py_stream(&mut state, &mut registry, source.stream_id).is_empty());
}

#[test]
fn closing_a_runtime_cleans_up_in_order() {
    let handle = handle_with(None);
    let mut state = HandleState::new();
    let termination = TerminationController::new();
    let mut runtime = Runtime::new(handle);
    assert!(!runtime.is_closed(&state, &termination));
    handle.track_function_id(&mut state, 1);
    handle.track_js_stream_id(&mut state, 2);
    handle.track_py_stream_id(&mut state, 3);
    assert_eq!(runtime.tracked_function_count(&state), 1);
    let mut work = runtime.close(&mut state).unwrap();
    assert_eq!(work.next(&mut state, &termination), CloseAction::ReleaseStream(2));
    assert_eq!(work.next(&mut state, &termination), CloseAction::NextStage);
    assert_eq!(work.next(&mut state, &termination), CloseAction::CancelPyStream(3));
    assert_eq!(work.next(&mut state, &termination), CloseAction::NextStage);
    assert_eq!(work.next(&mut state, &termination), CloseAction::ReleaseFunction(1));
    assert_eq!(work.next(&mut state, &termination), CloseAction::Close);
    assert!(runtime.close(&mut state).is_none());
    assert_eq!(runtime.live_handle().unwrap_err(), "Runtime has been closed");
    assert!(runtime.is_closed(&state, &termination));
}

#[test]
fn a_dead_runtime_is_not_asked_to_release() {
    let handle = handle_with(None);
    let mut state = HandleState::new();
    let mut termination = TerminationController::new();
    handle.track_function_id(&mut state, 1);
    handle.track_js_stream_id(&mut state, 2);
    termination.request();
    let mut work = Runtime::new(handle).close(&mut state).unwrap();
    assert_eq!(work.next(&mut state, &termination), CloseAction::NextStage);
    assert_eq!(work.next(&mut state, &termination), CloseAction::NextStage);
    assert_eq!(work.next(&mut state, &termination), CloseAction::Close);
}

#[test]
fn a_watchdog_thread_can_terminate() {
    let mut termination = TerminationController::new();
    let handle = TerminationHandle {};
    handle.terminate(&mut termination);
    handle.terminate(&mut termination);
    assert!(termination.is_requested());
    assert!(termination.is_latched());
    assert!(!handle.is_terminated(&termination));
    assert_eq!(handle.repr(&termination), "<TerminationHandle terminated=false>");
    assert!(termination.mark_terminated());
    assert!(!termination.mark_terminated());
    assert_eq!(handle.repr(&termination), "<TerminationHandle terminated=true>");
    assert!(!termination.request());
    assert_eq!(
        termination.reason(),
        Some("Terminated via TerminationHandle from another thread".to_string())
    );
}

#[test]
fn deadlines_fire_once_and_in_order() {
    let mut watchdog = Watchdog::new();
    let late = watchdog.arm(ms(0), ms(50), "late");
    let early = watchdog.arm(ms(0), ms(20), "early");
    match watchdog.poll(ms(5)) {
        WatchdogVerdict::Sleep { at_most } => assert_eq!(at_most, Some(ms(15))),
        other => panic!("unexpected {:?}", other),
    }
    assert!(matches!(watchdog.poll(ms(60)), WatchdogVerdict::Fire { reason } if reason == "early"));
    assert!(matches!(watchdog.poll(ms(61)), WatchdogVerdict::Sleep { at_most: None }));
    assert!(watchdog.disarm(early));
    assert!(watchdog.disarm(late));
    assert!(!watchdog.disarm(late));
    let unfired = watchdog.arm(ms(61), ms(9), "x");
    assert!(!watchdog.disarm(unfired));
}

#[test]
fn a_passed_deadline_stops_the_engine() {
    let mut watchdog = Watchdog::new();
    let mut termination = TerminationController::new();
    watchdog.arm(ms(0), ms(20), "slow");
    assert!(matches!(watchdog.turn(&mut termination, ms(19)), WatchdogVerdict::Sleep { .. }));
    assert!(!termination.is_latched());
    assert!(matches!(watchdog.turn(&mut termination, ms(20)), WatchdogVerdict::Fire { .. }));
    assert!(termination.is_latched());
    assert!(!termination.is_requested());
    assert_eq!(termination.reason(), Some("slow".to_string()));
}

#[test]
fn errors_become_exceptions() {
    let timeout = RuntimeError::timeout("slow".to_string());
    let (kind, text) = runtime_error_to_py_with(&timeout, Some("Evaluation failed"));
    assert_eq!(kind, PyExceptionKind::RuntimeTimeout);
    assert_eq!(text, "Evaluation failed: slow");
    let (kind, text) = runtime_error_to_py_with(&RuntimeError::terminated(None), None);
    assert_eq!((kind, text.as_str()), (PyExceptionKind::RuntimeTerminated, "Runtime terminated"));
    let (kind, _) = runtime_error_to_py_with(&RuntimeError::internal_text("x"), Some(""));
    assert_eq!(kind, PyExceptionKind::Builtin);
    let (kind, _) = runtime_error_to_py_with(&RuntimeError::force_killed("x".to_string()), None);
    assert_eq!(kind, PyExceptionKind::RuntimeForceKilled);
    let details = JsExceptionDetails {
        name: Some("Error".to_string()),
        message: Some("execution terminated".to_string()),
        stack: None,
        frames: vec![],
        summary: "Error: execution terminated".to_string(),
    };
    assert!(js_error_indicates_termination(&details));
    let thrown = RuntimeError::javascript(details.clone());
    assert!(runtime_error_indicates_termination(&thrown));
    let (kind, text) = runtime_error_to_py_with(&thrown, None);
    assert_eq!((kind, text.as_str()), (PyExceptionKind::JavaScriptError, "Error: execution terminated"));
    assert_eq!(CallContext::FunctionCall.as_str(), "Function call failed");
}

#[test]
fn futures_take_one_result() {
    let mut callback = CancelCallback { armed: true };
    assert!(!callback.call(false));
    assert!(callback.call(true));
    assert!(!callback.call(true));
    assert!(takes_result(false, false));
    assert!(!takes_result(true, false));
    assert!(!takes_result(false, true));
}

#[test]
fn engine_failures_are_named() {
    assert_eq!(
        context_of(EngineFailure::MissingHelper("f".to_string()).into_error()),
        "Missing f helper"
    );
    assert_eq!(
        context_of(EngineFailure::HelperNotCallable("f".to_string()).into_error()),
        "f is not callable"
    );
    assert_eq!(context_of(EngineFailure::BigIntCreation.into_error()), "Failed to create BigInt");
    assert_eq!(
        context_of(EngineFailure::PropertySetting("k".to_string()).into_error()),
        "Failed to set property 'k'"
    );
}

#[test]
fn abandoned_runtimes_are_reported() {
    assert_eq!(
        abandoned_message("5s", "close"),
        "Runtime did not acknowledge termination within 5s and was force-killed during close; the runtime thread has been abandoned and this Runtime is no longer usable -- create a new one"
    );
    assert_eq!(
        unacknowledged_message("5s"),
        "Runtime did not acknowledge an in-progress termination within 5s and was force-killed; the runtime thread has been abandoned and this Runtime is no longer usable -- create a new one"
    );
}
