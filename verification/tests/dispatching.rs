use pydeno::binding::{BindOutcome, BoundObjectProperty};
use pydeno::commands::{
    EngineTask, EntryOutcome, Handled, Reply, ReplyBody, RuntimeCommand,
};
use pydeno::config::{ConsoleCallback, InspectorConfig, RuntimeConfig};
use pydeno::core_state::{
    caught_call_error, near_heap_limit, validate_heap_sizes, CallError, CallOutcome,
    FunctionCallResult, InspectorWait, Returned, RuntimeCoreState,
};
use pydeno::dispatcher::{
    Advance, LoopPoll, Park, Reported, RuntimeDispatcher, StepNext,
};
use pydeno::double::Double;
use pydeno::error::{JsExceptionDetails, RuntimeError};
use pydeno::jobs::{EvaluationReading, JobEvent, JobPoll, PromiseReading, StartOutcome};
use pydeno::js_value::JSValue;
use pydeno::limits::SerializationLimits;
use pydeno::ops::PythonOpMode;
use pydeno::stats::{ActivitySummary, HeapSnapshot};
use pydeno::stream::{PyStreamRegistry, StreamChunk};
use pydeno::termination::{TerminationController, Watchdog};
use pydeno::time::Duration;

struct World {
    dispatcher: RuntimeDispatcher,
    termination: TerminationController,
    watchdog: Watchdog,
}

fn ms(n: u64) -> Duration {
    Duration::from_millis(n)
}

fn world(config: RuntimeConfig) -> World {
    let (core, _) = RuntimeCoreState::new(&config).unwrap();
    World {
        dispatcher: RuntimeDispatcher::new(core),
        termination: TerminationController::new(),
        watchdog: Watchdog::new(),
    }
}

impl World {
    fn handle(&mut self, now: u64, cmd: RuntimeCommand) -> Handled {
        self.dispatcher.handle_command(&mut self.termination, &mut self.watchdog, ms(now), cmd)
    }

    fn advance(&mut self, now: u64) -> Advance {
        self.dispatcher.advance(&mut self.termination, &mut self.watchdog, ms(now))
    }

    fn report(&mut self, now: u64, event: JobEvent) -> Reported {
        self.dispatcher.report(&mut self.termination, &mut self.watchdog, ms(now), event)
    }
}

fn eval_async(code: &str, timeout_ms: Option<u64>, responder: u64) -> RuntimeCommand {
    RuntimeCommand::EvalAsync {
        code: code.to_string(),
        timeout_ms,
        task_locals: Some(70),
        responder,
    }
}

fn details(message: &str) -> JsExceptionDetails {
    JsExceptionDetails {
        name: Some("Error".to_string()),
        message: Some(message.to_string()),
        stack: None,
        frames: vec![],
        summary: format!("Error: {}", message),
    }
}

fn value_of(reply: Reply) -> (u64, Result<JSValue, RuntimeError>) {
    match reply.body {
        ReplyBody::Value(result) => (reply.responder, result),
        other => panic!("unexpected {:?}", other),
    }
}

#[test]
fn a_script_is_evaluated_and_counted() {
    let mut w = world(RuntimeConfig::default());
    let handled = w.handle(10, RuntimeCommand::Eval { code: "1".to_string(), responder: 3 });
    let clock = match handled {
        Handled::Perform(EngineTask::Eval { code, clock }) => {
            assert_eq!(code, "1");
            clock
        }
        other => panic!("unexpected {:?}", other),
    };
    assert!(clock.watchdog.is_none());
    let reply = w.dispatcher.finish_eval(
        &mut w.termination, &mut w.watchdog, clock, ms(25),
        EntryOutcome::Finished(Ok(JSValue::Int(1))));
    let (responder, result) = value_of(reply);
    assert_eq!(responder, 3);
    assert!(matches!(result, Ok(JSValue::Int(1))));
    let stats = w.dispatcher.finish_stats(
        9, HeapSnapshot::default(), ActivitySummary::default(),
        &PyStreamRegistry::new(SerializationLimits::new(1, 1)));
    match stats.body {
        ReplyBody::Stats(Ok(snapshot)) => {
            assert_eq!(snapshot.eval_sync_count, 1);
            assert_eq!(snapshot.total_execution_time_ms, 15);
        }
        other => panic!("unexpected {:?}", other),
    }
}

#[test]
fn a_script_that_runs_too_long_times_out() {
    let mut config = RuntimeConfig::default();
    config.execution_timeout = Some(ms(40));
    let mut w = world(config);
    let clock = match w.handle(0, RuntimeCommand::Eval { code: "1".to_string(), responder: 3 }) {
        Handled::Perform(EngineTask::Eval { clock, .. }) => clock,
        other => panic!("unexpected {:?}", other),
    };
    w.watchdog.poll(ms(40));
    w.termination.terminate_execution();
    let reply = w.dispatcher.finish_eval(
        &mut w.termination, &mut w.watchdog, clock, ms(41),
        EntryOutcome::Threw(details("execution terminated")));
    match value_of(reply).1 {
        Err(RuntimeError::Timeout { context }) => {
            assert_eq!(context, "Sync evaluation timed out after 40ms")
        }
        other => panic!("unexpected {:?}", other),
    }
    assert!(!w.termination.is_latched());
    let again = w.handle(50, RuntimeCommand::Eval { code: "2".to_string(), responder: 4 });
    assert!(matches!(again, Handled::Perform(EngineTask::Eval { .. })));
}

#[test]
fn jobs_run_one_after_the_other() {
    let mut w = world(RuntimeConfig::default());
    assert!(matches!(w.handle(0, eval_async("a", None, 1)), Handled::Queued));
    assert!(matches!(w.handle(0, eval_async("b", None, 2)), Handled::Queued));
    assert!(matches!(w.dispatcher.park(true, ms(0)), Park::Again));
    assert!(matches!(w.advance(1), Advance::Perform(JobPoll::Start)));
    assert_eq!(w.dispatcher.core.task_locals, Some(70));
    let started = JobEvent::Started(StartOutcome::Waiting { handle: 90 });
    assert!(matches!(w.report(1, started), Reported::Pending));
    assert!(matches!(
        w.advance(2),
        Advance::Perform(JobPoll::CheckPromise { promise: 90 })
    ));
    assert!(matches!(
        w.report(2, JobEvent::Observed(PromiseReading::Pending)),
        Reported::Pending
    ));
    match w.dispatcher.park(false, ms(2)) {
        Park::AtMost(span) => assert_eq!(span, ms(1)),
        other => panic!("unexpected {:?}", other),
    }
    let done = JobEvent::Observed(PromiseReading::Fulfilled(Ok(JSValue::Bool(true))));
    match w.report(3, done) {
        Reported::Answered(reply) => {
            let (responder, result) = value_of(reply);
            assert_eq!(responder, 1);
            assert!(matches!(result, Ok(JSValue::Bool(true))));
        }
        other => panic!("unexpected {:?}", other),
    }
    assert_eq!(w.dispatcher.core.task_locals, None);
    assert!(matches!(w.advance(4), Advance::Perform(JobPoll::Start)));
    match w.report(4, JobEvent::Started(StartOutcome::Threw(details("no")))) {
        Reported::Answered(reply) => {
            let (responder, result) = value_of(reply);
            assert_eq!(responder, 2);
            assert!(matches!(result, Err(RuntimeError::JavaScript(_))));
        }
        other => panic!("unexpected {:?}", other),
    }
    assert!(matches!(w.advance(5), Advance::NoJob));
    w.dispatcher.park(true, ms(5));
    assert!(matches!(w.dispatcher.park(true, ms(5)), Park::Idle));
}

#[test]
fn a_job_past_its_deadline_times_out() {
    let mut w = world(RuntimeConfig::default());
    w.handle(0, eval_async("a", Some(30), 1));
    w.advance(1);
    w.report(1, JobEvent::Started(StartOutcome::Waiting { handle: 90 }));
    w.dispatcher.park(false, ms(1));
    match w.dispatcher.park(false, Duration::from_nanos(29_500_000)) {
        Park::AtMost(span) => assert_eq!(span, Duration::from_nanos(500_000)),
        other => panic!("unexpected {:?}", other),
    }
    match w.advance(30) {
        Advance::Answered(reply) => match value_of(reply) {
            (1, Err(RuntimeError::Timeout { context })) => assert_eq!(
                context,
                "Evaluation timed out after 30ms (promise still pending)"
            ),
            other => panic!("unexpected {:?}", other),
        },
        other => panic!("unexpected {:?}", other),
    }
    assert!(!w.termination.is_latched());
    assert_eq!(
        w.termination.reason(),
        Some("Asynchronous evaluation timed out after 30ms".to_string())
    );
}

#[test]
fn a_module_is_evaluated_and_its_namespace_read() {
    let mut w = world(RuntimeConfig::default());
    w.handle(0, RuntimeCommand::EvalModuleAsync {
        specifier: "m".to_string(),
        timeout_ms: None,
        task_locals: None,
        responder: 8,
    });
    assert!(matches!(w.advance(1), Advance::Perform(JobPoll::Start)));
    w.report(1, JobEvent::Started(StartOutcome::Waiting { handle: 5 }));
    assert!(matches!(
        w.advance(2),
        Advance::Perform(JobPoll::CheckEvaluation { module: 5 })
    ));
    w.report(2, JobEvent::Evaluated(EvaluationReading::Evaluated));
    assert!(matches!(
        w.advance(3),
        Advance::Perform(JobPoll::ReadNamespace { module: 5 })
    ));
    match w.report(3, JobEvent::NamespaceRead(Ok(JSValue::Null))) {
        Reported::Answered(reply) => assert_eq!(value_of(reply).0, 8),
        other => panic!("unexpected {:?}", other),
    }
}

#[test]
fn stream_reads_count_and_release() {
    let mut w = world(RuntimeConfig::default());
    let id = w.dispatcher.core.streams.register_stream(30);
    w.handle(0, RuntimeCommand::StreamRead { stream_id: id, responder: 1 });
    w.advance(0);
    w.report(0, JobEvent::Started(StartOutcome::Waiting { handle: 2 }));
    let last = StreamChunk { done: true, value: None };
    match w.report(1, JobEvent::Observed(PromiseReading::Fulfilled(Ok(last.to_js_value())))) {
        Reported::Answered(reply) => assert!(value_of(reply).1.is_ok()),
        other => panic!("unexpected {:?}", other),
    }
    assert_eq!(w.dispatcher.core.streams.stats_snapshot().active_js_streams, 0);
    w.handle(2, RuntimeCommand::StreamRead { stream_id: id, responder: 3 });
    w.advance(2);
    w.report(2, JobEvent::Started(StartOutcome::Waiting { handle: 2 }));
    match w.report(3, JobEvent::Observed(PromiseReading::Fulfilled(Ok(JSValue::Int(4))))) {
        Reported::BadChunk(err) => {
            let result = Err(err.into_runtime_error("Int(4)"));
            let reply = w.dispatcher.complete_active_job(
                &mut w.termination, &mut w.watchdog, ms(4), result).unwrap();
            assert!(value_of(reply).1.is_err());
        }
        other => panic!("unexpected {:?}", other),
    }
}

#[test]
fn a_call_that_returns_a_promise_is_resumed_on_its_clock() {
    let mut w = world(RuntimeConfig::default());
    let fn_id = w.dispatcher.core.functions.store(60, None);
    let cmd = RuntimeCommand::CallFunctionSync {
        fn_id,
        args: vec![],
        timeout_ms: Some(100),
        responder: 1,
    };
    let (clock, call) = match w.handle(0, cmd) {
        Handled::Perform(EngineTask::CallFunction { clock, call, .. }) => (clock, call),
        other => panic!("unexpected {:?}", other),
    };
    let reply = w.dispatcher.finish_call_function(
        &mut w.termination, &mut w.watchdog, clock, call, ms(5),
        CallOutcome::Returned(Returned::Promise { promise: 44 }));
    let call_id = match reply.body {
        ReplyBody::Call(Ok(FunctionCallResult::Pending { call_id })) => call_id,
        other => panic!("unexpected {:?}", other),
    };
    let resume = RuntimeCommand::ResumeFunctionCall { call_id, task_locals: None, responder: 2 };
    assert!(matches!(w.handle(80, resume), Handled::Queued));
    assert!(matches!(w.advance(81), Advance::Perform(JobPoll::Start)));
    w.report(81, JobEvent::Started(StartOutcome::Waiting { handle: 44 }));
    match w.advance(100) {
        Advance::Answered(reply) => match value_of(reply) {
            (2, Err(RuntimeError::Timeout { context })) => {
                assert_eq!(context, "Function call timed out after 100ms")
            }
            other => panic!("unexpected {:?}", other),
        },
        other => panic!("unexpected {:?}", other),
    }
    let again = RuntimeCommand::ResumeFunctionCall { call_id, task_locals: None, responder: 3 };
    match w.handle(101, again) {
        Handled::Reply(reply) => match value_of(reply).1 {
            Err(RuntimeError::Internal { context }) => {
                assert_eq!(context, "Pending function call 0 not found")
            }
            other => panic!("unexpected {:?}", other),
        },
        other => panic!("unexpected {:?}", other),
    }
}

#[test]
fn an_unknown_function_is_not_called() {
    let mut w = world(RuntimeConfig::default());
    let cmd = RuntimeCommand::CallFunctionSync {
        fn_id: 9,
        args: vec![],
        timeout_ms: Some(10),
        responder: 1,
    };
    match w.handle(0, cmd) {
        Handled::Reply(Reply { responder: 1, body: ReplyBody::Call(Err(err)) }) => assert!(
            matches!(err, RuntimeError::Internal { context } if context == "Function ID 9 not found")
        ),
        other => panic!("unexpected {:?}", other),
    }
}

#[test]
fn termination_answers_every_job() {
    let mut w = world(RuntimeConfig::default());
    w.handle(0, eval_async("a", None, 1));
    w.handle(0, eval_async("b", Some(5), 2));
    w.handle(0, eval_async("c", None, 3));
    assert!(w.dispatcher.abort_if_terminated(&mut w.termination, &mut w.watchdog).is_none());
    w.termination.ensure_reason("stop");
    w.termination.request();
    let replies = w.dispatcher.abort_if_terminated(&mut w.termination, &mut w.watchdog).unwrap();
    let mut responders = Vec::new();
    for reply in replies {
        let (responder, result) = value_of(reply);
        responders.push(responder);
        assert!(matches!(result, Err(RuntimeError::Terminated { reason: Some(r) }) if r == "stop"));
    }
    assert_eq!(responders, vec![1, 2, 3]);
    assert!(w.termination.is_terminated());
    match w.handle(1, eval_async("d", None, 4)) {
        Handled::Reply(reply) => {
            assert!(matches!(value_of(reply).1, Err(RuntimeError::Terminated { .. })))
        }
        other => panic!("unexpected {:?}", other),
    }
    let stats = w.handle(1, RuntimeCommand::GetStats { responder: 5 });
    assert!(matches!(stats, Handled::Perform(EngineTask::CollectStats { responder: 5 })));
}

#[test]
fn terminate_and_shutdown_end_the_loop() {
    let mut w = world(RuntimeConfig::default());
    w.dispatcher.core.functions.store(1, None);
    w.handle(0, eval_async("a", None, 1));
    match w.handle(1, RuntimeCommand::Terminate { responder: 7 }) {
        Handled::Exit(replies) => {
            assert_eq!(replies.len(), 2);
            assert_eq!(replies[1].responder, 7);
            assert!(matches!(replies[1].body, ReplyBody::Unit(Ok(()))));
        }
        other => panic!("unexpected {:?}", other),
    }
    assert_eq!(w.dispatcher.core.functions.len(), 0);
    let mut other = world(RuntimeConfig::default());
    other.dispatcher.core.functions.store(1, None);
    match other.handle(1, RuntimeCommand::Shutdown { responder: 7 }) {
        Handled::Exit(replies) => assert!(matches!(replies[0].body, ReplyBody::Closed)),
        other => panic!("unexpected {:?}", other),
    }
    assert_eq!(other.dispatcher.core.functions.len(), 0);
}

#[test]
fn a_closed_channel_ends_the_loop() {
    let mut w = world(RuntimeConfig::default());
    w.handle(0, eval_async("a", None, 1));
    let replies = w.dispatcher.handle_channel_closed(&mut w.termination, &mut w.watchdog);
    assert_eq!(replies.len(), 1);
    assert!(w.termination.is_terminated());
    assert_eq!(w.termination.reason(), Some("Command channel closed unexpectedly".to_string()));
}

#[test]
fn a_step_without_a_job_is_bounded() {
    let mut config = RuntimeConfig::default();
    config.execution_timeout = Some(ms(10));
    let mut w = world(config);
    let token = w.dispatcher.begin_step(&mut w.watchdog, ms(0));
    assert!(token.is_some());
    w.watchdog.poll(ms(10));
    w.termination.terminate_execution();
    let (next, exceeded) = w.dispatcher.end_step(
        &mut w.termination, &mut w.watchdog, token, LoopPoll::Drained, ms(11));
    assert!(matches!(next, StepNext::Proceed { drained: true }));
    assert_eq!(exceeded, Some(ms(10)));
    assert!(!w.termination.is_latched());
    w.handle(12, eval_async("a", None, 1));
    assert!(w.dispatcher.begin_step(&mut w.watchdog, ms(12)).is_none());
    let failed = LoopPoll::Failed(RuntimeError::internal_text("broken"));
    let (next, _) =
        w.dispatcher.end_step(&mut w.termination, &mut w.watchdog, None, failed, ms(13));
    match next {
        StepNext::Restart { reply: Some(reply) } => assert_eq!(value_of(reply).0, 1),
        other => panic!("unexpected {:?}", other),
    }
}

#[test]
fn the_inspector_is_waited_for_once() {
    let mut inspector = InspectorConfig::default();
    inspector.set_wait_for_connection(true);
    let mut config = RuntimeConfig::default();
    config.set_inspector(Some(inspector));
    let mut w = world(config);
    match w.handle(0, eval_async("a", None, 1)) {
        Handled::Wait { wait, command } => {
            assert_eq!(wait, InspectorWait::Session);
            let later = w.dispatcher.run_admitted(
                &mut w.termination, &mut w.watchdog, ms(9), command);
            assert!(matches!(later, Handled::Queued));
        }
        other => panic!("unexpected {:?}", other),
    }
    assert!(matches!(w.handle(10, eval_async("b", None, 2)), Handled::Queued));
}

#[test]
fn a_bound_object_is_exposed_once_it_is_installed() {
    let mut w = world(RuntimeConfig::default());
    let register = RuntimeCommand::RegisterPythonOp {
        name: "f".to_string(),
        mode: PythonOpMode::Sync,
        handler: 5,
        responder: 1,
    };
    let op_id = match w.handle(0, register) {
        Handled::Reply(Reply { responder: 1, body: ReplyBody::Token(Ok(id)) }) => id,
        other => panic!("unexpected {:?}", other),
    };
    let bind = |w: &mut World| {
        let properties =
            vec![BoundObjectProperty::Op { key: "f".to_string(), op_id, mode: PythonOpMode::Sync }];
        let cmd = RuntimeCommand::BindObject { name: "o".to_string(), properties, responder: 2 };
        match w.handle(1, cmd) {
            Handled::Perform(EngineTask::BindObject { tokens, .. }) => tokens,
            other => panic!("unexpected {:?}", other),
        }
    };
    let raw = Double { bits: (op_id as f64).to_bits() };
    let tokens = bind(&mut w);
    let reply = w.dispatcher.finish_bind_object(2, &tokens, BindOutcome::NoException);
    assert!(matches!(
        reply.body,
        ReplyBody::Unit(Err(RuntimeError::Internal { context }))
            if context == "__pydeno_bind_object invocation failed"
    ));
    assert!(w.dispatcher.core.registry.lookup_entry(raw, PythonOpMode::Sync).is_err());
    let tokens = bind(&mut w);
    let reply = w.dispatcher.finish_bind_object(2, &tokens, BindOutcome::Installed);
    assert!(matches!(reply.body, ReplyBody::Unit(Ok(()))));
    assert!(w.dispatcher.core.registry.lookup_entry(raw, PythonOpMode::Sync).is_ok());
    let revoke = RuntimeCommand::SetPythonOpExposure { op_id, exposed: false, responder: 3 };
    assert!(matches!(
        w.handle(2, revoke),
        Handled::Reply(Reply { responder: 3, body: ReplyBody::Flag(Ok(true)) })
    ));
    assert!(w.dispatcher.core.registry.lookup_entry(raw, PythonOpMode::Sync).is_err());
}

#[test]
fn modules_and_streams_are_set_up_by_command() {
    let mut w = world(RuntimeConfig::default());
    let add = RuntimeCommand::AddStaticModule {
        name: "m".to_string(),
        source: "s".to_string(),
        responder: 1,
    };
    assert!(matches!(
        w.handle(0, add),
        Handled::Reply(Reply { responder: 1, body: ReplyBody::Unit(Ok(())) })
    ));
    assert!(matches!(
        w.handle(0, RuntimeCommand::SetModuleResolver { handler: 3, responder: 2 }),
        Handled::Reply(Reply { responder: 2, .. })
    ));
    assert!(matches!(
        w.handle(0, RuntimeCommand::SetModuleLoader { handler: 4, responder: 2 }),
        Handled::Reply(Reply { responder: 2, .. })
    ));
    let id = w.dispatcher.core.streams.register_stream(30);
    match w.handle(0, RuntimeCommand::StreamCancel { stream_id: id, responder: 5 }) {
        Handled::Perform(EngineTask::CancelStream { stream_id, stream, responder }) => {
            assert_eq!(stream.stream, 30);
            let reply = w.dispatcher.finish_cancel_stream(responder, stream_id);
            assert!(matches!(reply.body, ReplyBody::Unit(Ok(()))));
        }
        other => panic!("unexpected {:?}", other),
    }
    assert_eq!(w.dispatcher.core.streams.stats_snapshot().active_js_streams, 0);
    assert!(matches!(
        w.handle(0, RuntimeCommand::StreamRelease { stream_id: id, responder: 5 }),
        Handled::Reply(Reply { responder: 5, .. })
    ));
    let other = w.dispatcher.core.streams.register_stream(31);
    assert!(matches!(
        w.handle(0, RuntimeCommand::StreamRelease { stream_id: other, responder: 5 }),
        Handled::Reply(Reply { responder: 5, body: ReplyBody::Unit(Ok(())) })
    ));
    assert!(matches!(
        w.handle(0, RuntimeCommand::ReleaseFunction { fn_id: 77, responder: 6 }),
        Handled::Reply(Reply { responder: 6, body: ReplyBody::Unit(Ok(())) })
    ));
}

#[test]
fn unknown_streams_are_refused() {
    let mut w = world(RuntimeConfig::default());
    w.dispatcher.core.streams.register_stream(30);
    for cmd in [
        RuntimeCommand::StreamRelease { stream_id: 7, responder: 5 },
        RuntimeCommand::StreamCancel { stream_id: 7, responder: 5 },
    ] {
        match w.handle(0, cmd) {
            Handled::Reply(Reply {
                responder: 5,
                body: ReplyBody::Unit(Err(RuntimeError::Internal { context })),
            }) => assert_eq!(context, "Unknown stream id"),
            other => panic!("unexpected {:?}", other),
        }
    }
    assert_eq!(w.dispatcher.core.streams.stats_snapshot().active_js_streams, 1);
    let reply = w.dispatcher.finish_cancel_stream(6, 7);
    assert!(matches!(reply.body, ReplyBody::Unit(Err(RuntimeError::Internal { .. }))));
}

#[test]
fn a_settled_promise_is_resumed_too() {
    let mut w = world(RuntimeConfig::default());
    let fn_id = w.dispatcher.core.functions.store(60, None);
    let cmd = RuntimeCommand::CallFunctionSync {
        fn_id,
        args: vec![],
        timeout_ms: None,
        responder: 1,
    };
    let (clock, call) = match w.handle(0, cmd) {
        Handled::Perform(EngineTask::CallFunction { clock, call, .. }) => (clock, call),
        other => panic!("unexpected {:?}", other),
    };
    let reply = w.dispatcher.finish_call_function(
        &mut w.termination, &mut w.watchdog, clock, call, ms(5),
        CallOutcome::Returned(Returned::Promise { promise: 44 }));
    let call_id = match reply.body {
        ReplyBody::Call(Ok(FunctionCallResult::Pending { call_id })) => call_id,
        other => panic!("unexpected {:?}", other),
    };
    let resume = RuntimeCommand::ResumeFunctionCall { call_id, task_locals: None, responder: 2 };
    assert!(matches!(w.handle(6, resume), Handled::Queued));
    assert!(matches!(w.advance(6), Advance::Perform(JobPoll::Start)));
    w.report(6, JobEvent::Started(StartOutcome::Waiting { handle: 44 }));
    match w.report(7, JobEvent::Observed(PromiseReading::Fulfilled(Ok(JSValue::Int(1))))) {
        Reported::Answered(reply) => {
            assert!(matches!(value_of(reply), (2, Ok(JSValue::Int(1)))))
        }
        other => panic!("unexpected {:?}", other),
    }
}

#[test]
fn heap_sizes_are_checked() {
    assert!(matches!(validate_heap_sizes(None, None), Ok(None)));
    assert!(matches!(validate_heap_sizes(None, Some(9)), Ok(Some((0, 9)))));
    assert!(matches!(validate_heap_sizes(Some(4), Some(9)), Ok(Some((4, 9)))));
    assert!(matches!(
        validate_heap_sizes(Some(4), None),
        Err(RuntimeError::Internal { context })
            if context == "initial_heap_size requires max_heap_size to be set as well"
    ));
    assert!(matches!(
        validate_heap_sizes(Some(10), Some(9)),
        Err(RuntimeError::Internal { context })
            if context == "initial_heap_size (10) cannot exceed max_heap_size (9)"
    ));
}

#[test]
fn a_full_heap_terminates_and_leaves_headroom() {
    let mut termination = TerminationController::new();
    let (limit, first) = near_heap_limit(&mut termination, 1000, 10, 20);
    assert_eq!(limit, 1000 + 1_048_576);
    assert!(first);
    assert!(termination.is_requested());
    assert!(termination.is_latched());
    assert_eq!(termination.reason(), Some("Heap limit exceeded".to_string()));
    let (limit, first) = near_heap_limit(&mut termination, usize::MAX, 10, 20);
    assert_eq!(limit, usize::MAX);
    assert!(!first);
    let (limit, _) = near_heap_limit(&mut termination, 0, 10, 80_000_000);
    assert_eq!(limit, 10_000_000);
}

#[test]
fn failed_calls_are_told_apart() {
    assert!(matches!(caught_call_error(true, None), CallError::Terminated));
    assert!(matches!(caught_call_error(false, Some(details("x"))), CallError::Js(_)));
    assert!(matches!(
        caught_call_error(false, None),
        CallError::Runtime(RuntimeError::Internal { context })
            if context == "Function call failed with no exception"
    ));
}

#[test]
fn startup_scripts_run_in_order() {
    let mut config = RuntimeConfig::default();
    config.bootstrap_script = Some("go()".to_string());
    config.on_console = Some(ConsoleCallback(4));
    let (mut core, _) = RuntimeCoreState::new(&config).unwrap();
    let scripts = core.startup_scripts(&config).unwrap();
    let names: Vec<String> = scripts.into_iter().map(|s| s.name).collect();
    assert_eq!(names, vec!["<disable_console>", "<console_capture>", "<bootstrap>"]);
}

#[test]
fn a_killed_runtime_keeps_its_bound_functions() {
    let mut w = world(RuntimeConfig::default());
    let op_id = w.dispatcher.core.registry.register("f", PythonOpMode::Sync, 5).unwrap();
    w.dispatcher.core.registry.expose(op_id);
    w.dispatcher.core.functions.store(1, None);
    w.handle(0, RuntimeCommand::Terminate { responder: 7 });
    let raw = Double { bits: (op_id as f64).to_bits() };
    assert!(w.dispatcher.core.registry.lookup_entry(raw, PythonOpMode::Sync).is_ok());
    assert_eq!(w.dispatcher.core.functions.len(), 0);
}

#[test]
fn an_exception_of_a_running_runtime_is_no_termination() {
    let mut w = world(RuntimeConfig::default());
    let clock = match w.handle(0, RuntimeCommand::Eval { code: "1".to_string(), responder: 3 }) {
        Handled::Perform(EngineTask::Eval { clock, .. }) => clock,
        other => panic!("unexpected {:?}", other),
    };
    let reply = w.dispatcher.finish_eval(
        &mut w.termination, &mut w.watchdog, clock, ms(1),
        EntryOutcome::Threw(details("execution terminated")));
    assert!(matches!(value_of(reply).1, Err(RuntimeError::JavaScript(_))));
    assert!(!w.termination.is_terminated());
    let clock = match w.handle(2, RuntimeCommand::Eval { code: "1".to_string(), responder: 3 }) {
        Handled::Perform(EngineTask::Eval { clock, .. }) => clock,
        other => panic!("unexpected {:?}", other),
    };
    w.termination.request();
    let reply = w.dispatcher.finish_eval(
        &mut w.termination, &mut w.watchdog, clock, ms(3),
        EntryOutcome::Threw(details("execution terminated")));
    assert!(matches!(value_of(reply).1, Err(RuntimeError::Terminated { reason: None })));
    assert!(w.termination.is_terminated());
}

#[test]
fn a_failing_call_keeps_its_own_error() {
    let mut config = RuntimeConfig::default();
    config.execution_timeout = Some(ms(10));
    let mut w = world(config);
    let specifier = "m".to_string();
    let clock = match w.handle(0, RuntimeCommand::EvalModule { specifier, responder: 3 }) {
        Handled::Perform(EngineTask::EvalModule { clock, .. }) => clock,
        other => panic!("unexpected {:?}", other),
    };
    w.watchdog.poll(ms(10));
    let reply = w.dispatcher.finish_eval_module(
        &mut w.termination, &mut w.watchdog, clock, ms(11),
        EntryOutcome::EngineFailed(RuntimeError::internal_text("own")));
    assert!(matches!(
        value_of(reply).1,
        Err(RuntimeError::Internal { context }) if context == "own"
    ));
}
