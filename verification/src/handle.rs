//! Python-facing handle for interacting with the runtime thread.
//!
//! Channels, clocks and locks are operated from outside. The handle decides whether a
//! command may be sent, how long an answer is waited for, and what the caller gets
//! when it does not come.

use crate::binding::BoundObjectProperty;
use crate::commands::RuntimeCommand;
use crate::config::RuntimeConfig;
use crate::core_state::span_of;
use crate::error::{ErrorView, RuntimeError, RuntimeResult};
use crate::js_value::JSValue;
use crate::limits::SerializationLimits;
use crate::ops::{OpToken, PythonOpMode};
use crate::stream::{chunk_of, ChunkError, CancelPlan, PyStreamRegistry, StreamChunk};
use crate::termination::{TerminationController, TerminationStatus, TerminationView};
use crate::text::join3;
use crate::time::Duration;
use std::collections::HashSet;
use vstd::prelude::*;
use vstd::std_specs::iter::IteratorSpec;

verus! {

broadcast use vstd::std_specs::hash::group_hash_axioms;

/// How often a blocked caller re-checks for a requested termination, in
/// milliseconds; deliberately much smaller than the grace.
pub const FORCE_KILL_POLL_SLICE_MS: u64 = 5;

/// How often a caller looks whether another's termination was acknowledged, in
/// milliseconds.
pub const TERMINATION_POLL_MS: u64 = 1;

/// What the standard library shows of a span of whole seconds and nanoseconds.
pub uninterp spec fn shown_span(seconds: u64, nanos: u32) -> Seq<char>;

/// `std::time::Duration`'s `Debug` output: the text is a function of the span alone.
#[verifier::external_body]
fn debug_duration(seconds: u64, nanos: u32) -> (text: String)
    requires
        nanos < 1_000_000_000,
    ensures
        text@ == shown_span(seconds, nanos),
{
    format!("{:?}", std::time::Duration::new(seconds, nanos))
}

/// What is shown of a span of nanoseconds.
pub open spec fn shown(nanos: nat) -> Seq<char> {
    shown_span((nanos / 1_000_000_000) as u64, (nanos % 1_000_000_000) as u32)
}

fn show(span: Duration) -> (text: String)
    ensures
        text@ == shown(span@),
{
    let nanos: u128 = span.as_nanos();
    debug_duration((nanos / 1_000_000_000) as u64, (nanos % 1_000_000_000) as u32)
}

/// A set of ids.
#[derive(Debug)]
pub struct IdSet {
    ids: HashSet<u32>,
}

impl View for IdSet {
    type V = Set<u32>;

    closed spec fn view(&self) -> Set<u32> {
        self.ids@
    }
}

impl IdSet {
    pub fn new() -> (set: Self)
        ensures
            set@ == Set::<u32>::empty(),
    {
        IdSet { ids: HashSet::new() }
    }

    pub fn insert(&mut self, id: u32)
        ensures
            final(self)@ == old(self)@.insert(id),
    {
        self.ids.insert(id);
    }

    pub fn remove(&mut self, id: u32)
        ensures
            final(self)@ == old(self)@.remove(id),
    {
        self.ids.remove(&id);
    }

    pub fn contains(&self, id: u32) -> (yes: bool)
        ensures
            yes == self@.contains(id),
    {
        self.ids.contains(&id)
    }

    pub fn len(&self) -> (n: usize)
        ensures
            n == self@.len(),
    {
        self.ids.len()
    }

    /// Takes every id out, each once, in no particular order.
    pub fn drain(&mut self) -> (ids: Vec<u32>)
        ensures
            ids@.no_duplicates(),
            ids@.to_set() == old(self)@,
            final(self)@ == Set::<u32>::empty(),
    {
        let mut out: Vec<u32> = Vec::new();
        let ghost keys = vstd::std_specs::hash::spec_hash_keys_iter(&self.ids).remaining().unref();
        for id in it: self.ids.iter()
            invariant
                keys == it.seq().unref(),
                out@.len() == it.index(),
                forall|k: int| 0 <= k < out@.len() ==> out@[k] == *it.seq()[k],
        {
            out.push(*id);
        }
        assert(out@ =~= keys);
        self.ids.clear();
        out
    }
}

/// What all clones of a handle share.
#[derive(Debug)]
pub struct HandleState {
    pub shutdown: bool,
    /// Function, JS stream and Python stream ids that are to be cleaned up.
    pub tracked_functions: IdSet,
    pub tracked_js_streams: IdSet,
    pub tracked_py_streams: IdSet,
}

#[verifier::ext_equal]
pub struct HandleView {
    pub shutdown: bool,
    pub functions: Set<u32>,
    pub js_streams: Set<u32>,
    pub py_streams: Set<u32>,
}

impl View for HandleState {
    type V = HandleView;

    open spec fn view(&self) -> HandleView {
        HandleView {
            shutdown: self.shutdown,
            functions: self.tracked_functions@,
            js_streams: self.tracked_js_streams@,
            py_streams: self.tracked_py_streams@,
        }
    }
}

impl HandleState {
    pub fn new() -> (state: Self)
        ensures
            state@ == (HandleView {
                shutdown: false,
                functions: Set::empty(),
                js_streams: Set::empty(),
                py_streams: Set::empty(),
            }),
    {
        HandleState {
            shutdown: false,
            tracked_functions: IdSet::new(),
            tracked_js_streams: IdSet::new(),
            tracked_py_streams: IdSet::new(),
        }
    }
}

/// Handle for communicating with a JavaScript runtime thread.
///
/// It does not shut the runtime down when it is dropped: callers close or terminate
/// explicitly.
#[derive(Clone, Copy, Debug)]
pub struct RuntimeHandle {
    /// This clone still has the command channel.
    pub connected: bool,
    pub serialization_limits: SerializationLimits,
    /// Grace period before a blocked caller abandons an unresponsive runtime, or
    /// `None` to wait forever.
    pub force_kill_grace: Option<Duration>,
}

/// Why nothing may be sent, if so: the runtime is terminated or shut down.
pub open spec fn send_refusal(
    connected: bool,
    state: HandleView,
    termination: TerminationView,
) -> Option<ErrorView> {
    if termination.is_requested() {
        Some(termination.error())
    } else if state.shutdown || !connected {
        Some(ErrorView::Internal("Runtime has been shut down"@))
    } else {
        None
    }
}

/// A command is handed out to be sent exactly when nothing is refused.
pub open spec fn requested(
    refusal: Option<ErrorView>,
    result: RuntimeResult<RuntimeCommand>,
    asked: spec_fn(RuntimeCommand) -> bool,
) -> bool {
    match result {
        Ok(cmd) => refusal is None && asked(cmd),
        Err(err) => refusal == Some(err@),
    }
}

/// The text for a runtime that was abandoned while a result was waited for.
pub open spec fn abandoned_text(grace: Seq<char>, what: Seq<char>) -> Seq<char> {
    "Runtime did not acknowledge termination within "@ + grace
        + " and was force-killed during "@ + what
        + "; the runtime thread has been abandoned and this Runtime is no longer usable -- create a new one"@
}

/// The text for a runtime that was abandoned while another's termination was waited
/// for.
pub open spec fn unacknowledged_text(grace: Seq<char>) -> Seq<char> {
    "Runtime did not acknowledge an in-progress termination within "@ + grace
        + " and was force-killed; the runtime thread has been abandoned and this Runtime is no longer usable -- create a new one"@
}

/// The text for a runtime that was abandoned while a result was waited for; `grace`
/// is how the grace period is shown.
pub fn abandoned_message(grace: &str, what: &str) -> (text: String)
    ensures
        text@ == abandoned_text(grace@, what@),
{
    let mut text = join3(
        "Runtime did not acknowledge termination within ",
        grace,
        " and was force-killed during ",
    );
    text.append(what);
    text.append(
        "; the runtime thread has been abandoned and this Runtime is no longer usable -- create a new one",
    );
    text
}

/// The text for a runtime that was abandoned while another's termination was waited
/// for; `grace` is how the grace period is shown.
pub fn unacknowledged_message(grace: &str) -> (text: String)
    ensures
        text@ == unacknowledged_text(grace@),
{
    join3(
        "Runtime did not acknowledge an in-progress termination within ",
        grace,
        " and was force-killed; the runtime thread has been abandoned and this Runtime is no longer usable -- create a new one",
    )
}

/// What a command is called in the text for one that could not be sent.
pub open spec fn sent_as(cmd: RuntimeCommand) -> Seq<char> {
    match cmd {
        RuntimeCommand::Eval { .. } => "eval"@,
        RuntimeCommand::EvalAsync { .. } => "eval_async"@,
        RuntimeCommand::EvalModule { .. } => "eval_module"@,
        RuntimeCommand::EvalModuleAsync { .. } => "eval_module_async"@,
        RuntimeCommand::RegisterPythonOp { .. } => "register_op"@,
        RuntimeCommand::SetPythonOpExposure { .. } => "op exposure"@,
        RuntimeCommand::SetModuleResolver { .. } => "set_module_resolver"@,
        RuntimeCommand::SetModuleLoader { .. } => "set_module_loader"@,
        RuntimeCommand::AddStaticModule { .. } => "add_static_module"@,
        RuntimeCommand::BindObject { .. } => "bind_object"@,
        RuntimeCommand::CallFunctionSync { .. } => "call_function_sync"@,
        RuntimeCommand::CallFunctionAsync { .. } => "call_function"@,
        RuntimeCommand::ResumeFunctionCall { .. } => "resume_function_call"@,
        RuntimeCommand::ReleaseFunction { .. } => "release_function"@,
        RuntimeCommand::StreamRead { .. } => "stream_read"@,
        RuntimeCommand::StreamRelease { .. } => "stream_release"@,
        RuntimeCommand::StreamCancel { .. } => "stream_cancel"@,
        RuntimeCommand::GetStats { .. } => "get_stats"@,
        RuntimeCommand::Terminate { .. } => "terminate"@,
        RuntimeCommand::Shutdown { .. } => "shutdown"@,
    }
}

/// How an answer is waited for, and what it is called.
#[derive(Clone, Copy, Debug)]
pub enum Awaited {
    /// In slices, with the force-kill escalation; the name of the result.
    Escalating(&'static str),
    /// Without escalation; the text for an answer that never comes.
    Plain(&'static str),
}

#[verifier::ext_equal]
pub enum AwaitedView {
    Escalating(Seq<char>),
    Plain(Seq<char>),
}

impl Awaited {
    pub open spec fn view(self) -> AwaitedView {
        match self {
            Awaited::Escalating(what) => AwaitedView::Escalating(what@),
            Awaited::Plain(text) => AwaitedView::Plain(text@),
        }
    }
}

/// How the answer to a command is waited for.
pub open spec fn awaited_as(cmd: RuntimeCommand) -> AwaitedView {
    match cmd {
        RuntimeCommand::Eval { .. } => AwaitedView::Escalating("eval"@),
        RuntimeCommand::EvalAsync { .. } => AwaitedView::Plain(
            "Failed to receive async eval result"@,
        ),
        RuntimeCommand::EvalModule { .. } => AwaitedView::Escalating("eval_module"@),
        RuntimeCommand::EvalModuleAsync { .. } => AwaitedView::Plain(
            "Failed to receive async eval_module result"@,
        ),
        RuntimeCommand::RegisterPythonOp { .. } => AwaitedView::Escalating("op registration"@),
        RuntimeCommand::SetPythonOpExposure { .. } => AwaitedView::Plain(
            "Failed to receive op exposure result"@,
        ),
        RuntimeCommand::SetModuleResolver { .. } => AwaitedView::Escalating(
            "set_module_resolver"@,
        ),
        RuntimeCommand::SetModuleLoader { .. } => AwaitedView::Escalating("set_module_loader"@),
        RuntimeCommand::AddStaticModule { .. } => AwaitedView::Escalating("add_static_module"@),
        RuntimeCommand::BindObject { .. } => AwaitedView::Escalating("bind_object"@),
        RuntimeCommand::CallFunctionSync { .. } => AwaitedView::Escalating("function call"@),
        RuntimeCommand::CallFunctionAsync { .. } => AwaitedView::Plain(
            "Failed to receive function call result"@,
        ),
        RuntimeCommand::ResumeFunctionCall { .. } => AwaitedView::Plain(
            "Failed to receive resumed function call result"@,
        ),
        RuntimeCommand::ReleaseFunction { .. } => AwaitedView::Plain(
            "Failed to receive release result"@,
        ),
        RuntimeCommand::StreamRead { .. } => AwaitedView::Plain("Failed to receive stream chunk"@),
        RuntimeCommand::StreamRelease { .. } => AwaitedView::Escalating("stream_release"@),
        RuntimeCommand::StreamCancel { .. } => AwaitedView::Escalating("stream_cancel"@),
        RuntimeCommand::GetStats { .. } => AwaitedView::Escalating("stats"@),
        RuntimeCommand::Terminate { .. } => AwaitedView::Escalating("terminate confirmation"@),
        RuntimeCommand::Shutdown { .. } => AwaitedView::Plain(
            "Failed to confirm runtime shutdown"@,
        ),
    }
}

/// The error of a command that could not be sent.
pub fn send_failure(cmd: &RuntimeCommand) -> (err: RuntimeError)
    ensures
        err@ == ErrorView::Internal("Failed to send "@ + sent_as(*cmd) + " command"@),
{
    let what: &str = match cmd {
        RuntimeCommand::Eval { .. } => "eval",
        RuntimeCommand::EvalAsync { .. } => "eval_async",
        RuntimeCommand::EvalModule { .. } => "eval_module",
        RuntimeCommand::EvalModuleAsync { .. } => "eval_module_async",
        RuntimeCommand::RegisterPythonOp { .. } => "register_op",
        RuntimeCommand::SetPythonOpExposure { .. } => "op exposure",
        RuntimeCommand::SetModuleResolver { .. } => "set_module_resolver",
        RuntimeCommand::SetModuleLoader { .. } => "set_module_loader",
        RuntimeCommand::AddStaticModule { .. } => "add_static_module",
        RuntimeCommand::BindObject { .. } => "bind_object",
        RuntimeCommand::CallFunctionSync { .. } => "call_function_sync",
        RuntimeCommand::CallFunctionAsync { .. } => "call_function",
        RuntimeCommand::ResumeFunctionCall { .. } => "resume_function_call",
        RuntimeCommand::ReleaseFunction { .. } => "release_function",
        RuntimeCommand::StreamRead { .. } => "stream_read",
        RuntimeCommand::StreamRelease { .. } => "stream_release",
        RuntimeCommand::StreamCancel { .. } => "stream_cancel",
        RuntimeCommand::GetStats { .. } => "get_stats",
        RuntimeCommand::Terminate { .. } => "terminate",
        RuntimeCommand::Shutdown { .. } => "shutdown",
    };
    RuntimeError::internal(join3("Failed to send ", what, " command"))
}

/// How the answer to a command is waited for.
pub fn awaited(cmd: &RuntimeCommand) -> (awaited: Awaited)
    ensures
        awaited.view() == awaited_as(*cmd),
{
    match cmd {
        RuntimeCommand::Eval { .. } => Awaited::Escalating("eval"),
        RuntimeCommand::EvalAsync { .. } => Awaited::Plain("Failed to receive async eval result"),
        RuntimeCommand::EvalModule { .. } => Awaited::Escalating("eval_module"),
        RuntimeCommand::EvalModuleAsync { .. } => Awaited::Plain(
            "Failed to receive async eval_module result",
        ),
        RuntimeCommand::RegisterPythonOp { .. } => Awaited::Escalating("op registration"),
        RuntimeCommand::SetPythonOpExposure { .. } => Awaited::Plain(
            "Failed to receive op exposure result",
        ),
        RuntimeCommand::SetModuleResolver { .. } => Awaited::Escalating("set_module_resolver"),
        RuntimeCommand::SetModuleLoader { .. } => Awaited::Escalating("set_module_loader"),
        RuntimeCommand::AddStaticModule { .. } => Awaited::Escalating("add_static_module"),
        RuntimeCommand::BindObject { .. } => Awaited::Escalating("bind_object"),
        RuntimeCommand::CallFunctionSync { .. } => Awaited::Escalating("function call"),
        RuntimeCommand::CallFunctionAsync { .. } => Awaited::Plain(
            "Failed to receive function call result",
        ),
        RuntimeCommand::ResumeFunctionCall { .. } => Awaited::Plain(
            "Failed to receive resumed function call result",
        ),
        RuntimeCommand::ReleaseFunction { .. } => Awaited::Plain(
            "Failed to receive release result",
        ),
        RuntimeCommand::StreamRead { .. } => Awaited::Plain("Failed to receive stream chunk"),
        RuntimeCommand::StreamRelease { .. } => Awaited::Escalating("stream_release"),
        RuntimeCommand::StreamCancel { .. } => Awaited::Escalating("stream_cancel"),
        RuntimeCommand::GetStats { .. } => Awaited::Escalating("stats"),
        RuntimeCommand::Terminate { .. } => Awaited::Escalating("terminate confirmation"),
        RuntimeCommand::Shutdown { .. } => Awaited::Plain("Failed to confirm runtime shutdown"),
    }
}

/// The error of an answer that never comes.
pub open spec fn lost_text(awaited: AwaitedView) -> Seq<char> {
    match awaited {
        AwaitedView::Escalating(what) => "Failed to receive "@ + what + " result"@,
        AwaitedView::Plain(text) => text,
    }
}

/// The error of an answer that never comes.
pub fn recv_failure(awaited: Awaited) -> (err: RuntimeError)
    ensures
        err@ == ErrorView::Internal(lost_text(awaited.view())),
{
    match awaited {
        Awaited::Escalating(what) => RuntimeError::internal(
            join3("Failed to receive ", what, " result"),
        ),
        Awaited::Plain(text) => RuntimeError::internal_text(text),
    }
}

/// What the wait for an answer brought.
#[derive(Debug)]
pub enum Received<T> {
    Value(T),
    /// The runtime thread is gone.
    Disconnected,
    /// One slice passed.
    TimedOut,
}

/// What follows.
#[derive(Debug)]
pub enum RecvNext<T> {
    Done(RuntimeResult<T>),
    /// Wait for another slice.
    Again,
}

/// How far an answer is waited for: when the requested termination was first seen.
#[derive(Clone, Copy, Debug)]
pub struct RecvWait {
    pub termination_seen_at: Option<Duration>,
}

/// What follows a slice in which no answer came: once a termination is requested the
/// runtime has the grace period to acknowledge it, and is abandoned afterwards.
pub open spec fn slice_passed(
    grace: Option<nat>,
    requested: bool,
    seen_at: Option<nat>,
    now: nat,
) -> (Option<nat>, bool) {
    if grace is None || !requested {
        (seen_at, false)
    } else {
        let started = match seen_at {
            Some(t) => t,
            None => now,
        };
        (Some(started), crate::core_state::elapsed_nanos(started, now) >= grace->0)
    }
}

/// What terminating asks for next.
#[derive(Clone, Copy, Debug, PartialEq, Eq, Structural)]
pub enum TerminateStep {
    /// There is nothing to terminate.
    Done,
    /// Someone else is terminating already: wait for them.
    AwaitOther,
    /// Send the command, and report with [`RuntimeHandle::terminate_sent`].
    Send,
}

/// What waiting for another's termination asks for next.
#[derive(Debug)]
pub enum AwaitStep {
    Done(RuntimeResult<()>),
    Sleep(Duration),
}

/// What closing asks for next.
#[derive(Clone, Copy, Debug, PartialEq, Eq, Structural)]
pub enum CloseStep {
    Done,
    /// Send the command over the channel that was just given up.
    Send,
}

impl RuntimeHandle {
    /// A handle for a runtime thread that was just spawned.
    pub fn spawn(config: &RuntimeConfig) -> (handle: Self)
        ensures
            handle.connected,
            handle.serialization_limits == (SerializationLimits {
                max_depth: config.max_serialization_depth,
                max_bytes: config.max_serialization_bytes,
            }),
            handle.force_kill_grace == config.force_kill_grace,
    {
        RuntimeHandle {
            connected: true,
            serialization_limits: config.serialization_limits(),
            force_kill_grace: config.force_kill_grace,
        }
    }

    /// Whether a command may be sent: the runtime is neither terminated nor shut down.
    pub fn sender(&self, state: &HandleState, termination: &TerminationController) -> (result:
        RuntimeResult<()>)
        ensures
            match result {
                Ok(()) => send_refusal(self.connected, state@, termination@) is None,
                Err(err) => send_refusal(self.connected, state@, termination@) == Some(err@),
            },
    {
        if termination.is_requested() || termination.is_terminated() {
            return Err(termination.terminated_error());
        }
        if state.shutdown || !self.connected {
            return Err(RuntimeError::internal_text("Runtime has been shut down"));
        }
        Ok(())
    }

    /// Evaluate JavaScript code synchronously in the global scope.
    pub fn eval_sync(
        &self,
        state: &HandleState,
        termination: &TerminationController,
        code: &str,
        responder: u64,
    ) -> (result: RuntimeResult<RuntimeCommand>)
        ensures
            requested(
                send_refusal(self.connected, state@, termination@),
                result,
                |cmd: RuntimeCommand| cmd matches RuntimeCommand::Eval { code: c, responder: r }
                    && c@ == code@
                    && r == responder,
            ),
    {
        match self.sender(state, termination) {
            Ok(()) => Ok(RuntimeCommand::Eval { code: code.to_owned(), responder }),
            Err(err) => Err(err),
        }
    }

    /// Evaluate JavaScript code asynchronously with optional timeout, awaiting a returned
    /// promise.
    pub fn eval_async(
        &self,
        state: &HandleState,
        termination: &TerminationController,
        code: &str,
        timeout_ms: Option<u64>,
        task_locals: Option<u64>,
        responder: u64,
    ) -> (result: RuntimeResult<RuntimeCommand>)
        ensures
            requested(
                send_refusal(self.connected, state@, termination@),
                result,
                |cmd: RuntimeCommand|
                    cmd matches RuntimeCommand::EvalAsync { code: c, timeout_ms: t, task_locals: l, responder: r }
                    && c@ == code@
                    && t == timeout_ms
                    && l == task_locals
                    && r == responder,
            ),
    {
        match self.sender(state, termination) {
            Ok(()) => Ok(
                RuntimeCommand::EvalAsync {
                    code: code.to_owned(),
                    timeout_ms,
                    task_locals,
                    responder,
                },
            ),
            Err(err) => Err(err),
        }
    }

    /// Register a Python callable as an op. It is not callable from JavaScript until
    /// [`Self::set_op_exposure`] blesses its token.
    pub fn register_op(
        &self,
        state: &HandleState,
        termination: &TerminationController,
        name: String,
        mode: PythonOpMode,
        handler: u64,
        responder: u64,
    ) -> (result: RuntimeResult<RuntimeCommand>)
        ensures
            requested(
                send_refusal(self.connected, state@, termination@),
                result,
                |cmd: RuntimeCommand|
                    cmd == (RuntimeCommand::RegisterPythonOp { name, mode, handler, responder }),
            ),
    {
        match self.sender(state, termination) {
            Ok(()) => Ok(RuntimeCommand::RegisterPythonOp { name, mode, handler, responder }),
            Err(err) => Err(err),
        }
    }

    /// Expose or revoke an op capability.
    pub fn set_op_exposure(
        &self,
        state: &HandleState,
        termination: &TerminationController,
        op_id: OpToken,
        exposed: bool,
        responder: u64,
    ) -> (result: RuntimeResult<RuntimeCommand>)
        ensures
            requested(
                send_refusal(self.connected, state@, termination@),
                result,
                |cmd: RuntimeCommand|
                    cmd == (RuntimeCommand::SetPythonOpExposure { op_id, exposed, responder }),
            ),
    {
        match self.sender(state, termination) {
            Ok(()) => Ok(RuntimeCommand::SetPythonOpExposure { op_id, exposed, responder }),
            Err(err) => Err(err),
        }
    }

    /// Set a custom Python resolver for module specifiers.
    pub fn set_module_resolver(
        &self,
        state: &HandleState,
        termination: &TerminationController,
        handler: u64,
        responder: u64,
    ) -> (result: RuntimeResult<RuntimeCommand>)
        ensures
            requested(
                send_refusal(self.connected, state@, termination@),
                result,
                |cmd: RuntimeCommand|
                    cmd == (RuntimeCommand::SetModuleResolver { handler, responder }),
            ),
    {
        match self.sender(state, termination) {
            Ok(()) => Ok(RuntimeCommand::SetModuleResolver { handler, responder }),
            Err(err) => Err(err),
        }
    }

    /// Set a custom Python loader for module source code.
    pub fn set_module_loader(
        &self,
        state: &HandleState,
        termination: &TerminationController,
        handler: u64,
        responder: u64,
    ) -> (result: RuntimeResult<RuntimeCommand>)
        ensures
            requested(
                send_refusal(self.connected, state@, termination@),
                result,
                |cmd: RuntimeCommand|
                    cmd == (RuntimeCommand::SetModuleLoader { handler, responder }),
            ),
    {
        match self.sender(state, termination) {
            Ok(()) => Ok(RuntimeCommand::SetModuleLoader { handler, responder }),
            Err(err) => Err(err),
        }
    }

    /// Register a static ES module that can be imported without a custom loader.
    pub fn add_static_module(
        &self,
        state: &HandleState,
        termination: &TerminationController,
        name: String,
        source: String,
        responder: u64,
    ) -> (result: RuntimeResult<RuntimeCommand>)
        ensures
            requested(
                send_refusal(self.connected, state@, termination@),
                result,
                |cmd: RuntimeCommand|
                    cmd == (RuntimeCommand::AddStaticModule { name, source, responder }),
            ),
    {
        match self.sender(state, termination) {
            Ok(()) => Ok(RuntimeCommand::AddStaticModule { name, source, responder }),
            Err(err) => Err(err),
        }
    }

    /// Bind a Python object (values and ops) to the JavaScript global namespace.
    pub fn bind_object(
        &self,
        state: &HandleState,
        termination: &TerminationController,
        name: String,
        properties: Vec<BoundObjectProperty>,
        responder: u64,
    ) -> (result: RuntimeResult<RuntimeCommand>)
        ensures
            requested(
                send_refusal(self.connected, state@, termination@),
                result,
                |cmd: RuntimeCommand|
                    cmd == (RuntimeCommand::BindObject { name, properties, responder }),
            ),
    {
        match self.sender(state, termination) {
            Ok(()) => Ok(RuntimeCommand::BindObject { name, properties, responder }),
            Err(err) => Err(err),
        }
    }

    /// Evaluate an ES module synchronously.
    pub fn eval_module_sync(
        &self,
        state: &HandleState,
        termination: &TerminationController,
        specifier: &str,
        responder: u64,
    ) -> (result: RuntimeResult<RuntimeCommand>)
        ensures
            requested(
                send_refusal(self.connected, state@, termination@),
                result,
                |cmd: RuntimeCommand|
                    cmd matches RuntimeCommand::EvalModule { specifier: s, responder: r }
                    && s@ == specifier@
                    && r == responder,
            ),
    {
        match self.sender(state, termination) {
            Ok(()) => Ok(RuntimeCommand::EvalModule { specifier: specifier.to_owned(), responder }),
            Err(err) => Err(err),
        }
    }

    /// Evaluate an ES module asynchronously with optional timeout.
    pub fn eval_module_async(
        &self,
        state: &HandleState,
        termination: &TerminationController,
        specifier: &str,
        timeout_ms: Option<u64>,
        task_locals: Option<u64>,
        responder: u64,
    ) -> (result: RuntimeResult<RuntimeCommand>)
        ensures
            requested(
                send_refusal(self.connected, state@, termination@),
                result,
                |cmd: RuntimeCommand|
                    cmd matches RuntimeCommand::EvalModuleAsync { specifier: s, timeout_ms: t, task_locals: l, responder: r }
                    && s@ == specifier@
                    && t == timeout_ms
                    && l == task_locals
                    && r == responder,
            ),
    {
        match self.sender(state, termination) {
            Ok(()) => Ok(RuntimeCommand::EvalModuleAsync {
                specifier: specifier.to_owned(),
                timeout_ms,
                task_locals,
                responder,
            }),
            Err(err) => Err(err),
        }
    }

    /// Call a JavaScript function synchronously with optional timeout.
    pub fn call_function_sync(
        &self,
        state: &HandleState,
        termination: &TerminationController,
        fn_id: u32,
        args: Vec<JSValue>,
        timeout_ms: Option<u64>,
        responder: u64,
    ) -> (result: RuntimeResult<RuntimeCommand>)
        ensures
            requested(
                send_refusal(self.connected, state@, termination@),
                result,
                |cmd: RuntimeCommand|
                    cmd == (RuntimeCommand::CallFunctionSync { fn_id, args, timeout_ms, responder }),
            ),
    {
        match self.sender(state, termination) {
            Ok(()) => Ok(RuntimeCommand::CallFunctionSync { fn_id, args, timeout_ms, responder }),
            Err(err) => Err(err),
        }
    }

    /// Call a JavaScript function asynchronously with optional timeout.
    pub fn call_function_async(
        &self,
        state: &HandleState,
        termination: &TerminationController,
        fn_id: u32,
        args: Vec<JSValue>,
        timeout_ms: Option<u64>,
        task_locals: Option<u64>,
        responder: u64,
    ) -> (result: RuntimeResult<RuntimeCommand>)
        ensures
            requested(
                send_refusal(self.connected, state@, termination@),
                result,
                |cmd: RuntimeCommand|
                    cmd == (RuntimeCommand::CallFunctionAsync { fn_id, args, timeout_ms, task_locals, responder }),
            ),
    {
        match self.sender(state, termination) {
            Ok(()) => Ok(RuntimeCommand::CallFunctionAsync { fn_id, args, timeout_ms, task_locals, responder }),
            Err(err) => Err(err),
        }
    }

    /// Resume polling a pending function call.
    pub fn resume_function_call(
        &self,
        state: &HandleState,
        termination: &TerminationController,
        call_id: u64,
        task_locals: Option<u64>,
        responder: u64,
    ) -> (result: RuntimeResult<RuntimeCommand>)
        ensures
            requested(
                send_refusal(self.connected, state@, termination@),
                result,
                |cmd: RuntimeCommand|
                    cmd == (RuntimeCommand::ResumeFunctionCall { call_id, task_locals, responder }),
            ),
    {
        match self.sender(state, termination) {
            Ok(()) => Ok(RuntimeCommand::ResumeFunctionCall { call_id, task_locals, responder }),
            Err(err) => Err(err),
        }
    }

    /// Release a function handle so that the function can be dropped.
    pub fn release_function(
        &self,
        state: &HandleState,
        termination: &TerminationController,
        fn_id: u32,
        responder: u64,
    ) -> (result: RuntimeResult<RuntimeCommand>)
        ensures
            requested(
                send_refusal(self.connected, state@, termination@),
                result,
                |cmd: RuntimeCommand| cmd == (RuntimeCommand::ReleaseFunction { fn_id, responder }),
            ),
    {
        match self.sender(state, termination) {
            Ok(()) => Ok(RuntimeCommand::ReleaseFunction { fn_id, responder }),
            Err(err) => Err(err),
        }
    }

    /// Read the next chunk from a JavaScript stream; the answer goes through
    /// [`Self::stream_chunk`].
    pub fn stream_read(
        &self,
        state: &HandleState,
        termination: &TerminationController,
        stream_id: u32,
        responder: u64,
    ) -> (result: RuntimeResult<RuntimeCommand>)
        ensures
            requested(
                send_refusal(self.connected, state@, termination@),
                result,
                |cmd: RuntimeCommand| cmd == (RuntimeCommand::StreamRead { stream_id, responder }),
            ),
    {
        match self.sender(state, termination) {
            Ok(()) => Ok(RuntimeCommand::StreamRead { stream_id, responder }),
            Err(err) => Err(err),
        }
    }

    /// Release a JavaScript stream handle; the answer goes through
    /// [`Self::stream_gone`].
    pub fn stream_release(
        &self,
        state: &HandleState,
        termination: &TerminationController,
        stream_id: u32,
        responder: u64,
    ) -> (result: RuntimeResult<RuntimeCommand>)
        ensures
            requested(
                send_refusal(self.connected, state@, termination@),
                result,
                |cmd: RuntimeCommand|
                    cmd == (RuntimeCommand::StreamRelease { stream_id, responder }),
            ),
    {
        match self.sender(state, termination) {
            Ok(()) => Ok(RuntimeCommand::StreamRelease { stream_id, responder }),
            Err(err) => Err(err),
        }
    }

    /// Cancel a JavaScript stream and release its handle; the answer goes through
    /// [`Self::stream_gone`].
    pub fn stream_cancel(
        &self,
        state: &HandleState,
        termination: &TerminationController,
        stream_id: u32,
        responder: u64,
    ) -> (result: RuntimeResult<RuntimeCommand>)
        ensures
            requested(
                send_refusal(self.connected, state@, termination@),
                result,
                |cmd: RuntimeCommand|
                    cmd == (RuntimeCommand::StreamCancel { stream_id, responder }),
            ),
    {
        match self.sender(state, termination) {
            Ok(()) => Ok(RuntimeCommand::StreamCancel { stream_id, responder }),
            Err(err) => Err(err),
        }
    }

    /// Ask for the current figures of the runtime.
    pub fn get_stats(
        &self,
        state: &HandleState,
        termination: &TerminationController,
        responder: u64,
    ) -> (result: RuntimeResult<RuntimeCommand>)
        ensures
            requested(
                send_refusal(self.connected, state@, termination@),
                result,
                |cmd: RuntimeCommand| cmd == (RuntimeCommand::GetStats { responder }),
            ),
    {
        match self.sender(state, termination) {
            Ok(()) => Ok(RuntimeCommand::GetStats { responder }),
            Err(err) => Err(err),
        }
    }

    /// How long an answer is waited for at a time; `None` for as long as it takes.
    pub fn recv_slice(&self, awaited: Awaited) -> (slice: Option<Duration>)
        ensures
            span_of(slice) == if awaited.view() is Escalating && self.force_kill_grace is Some {
                Some(5_000_000nat)
            } else {
                None
            },
    {
        match (awaited, self.force_kill_grace) {
            (Awaited::Escalating(_), Some(_)) => Some(
                Duration::from_millis(FORCE_KILL_POLL_SLICE_MS),
            ),
            _ => None,
        }
    }

    /// Mark the runtime terminated and shut down, abandoning its thread.
    fn force_kill(
        &self,
        state: &mut HandleState,
        termination: &mut TerminationController,
        message: String,
    ) -> (err: RuntimeError)
        ensures
            err@ == ErrorView::ForceKilled(message@),
            final(termination)@ == old(termination)@.terminated(),
            final(state)@ == (HandleView { shutdown: true, ..old(state)@ }),
    {
        termination.force_mark_terminated();
        state.shutdown = true;
        RuntimeError::force_killed(message)
    }

    /// Takes in what one wait for an answer brought, escalating to a force-kill if
    /// the runtime stops answering after a termination was requested.
    ///
    /// The other ways to terminate need the runtime thread to run, so none works when
    /// it is wedged in a host call that never returns. The wedged thread is abandoned,
    /// not reclaimed, and the runtime stays dead.
    pub fn recv_result<T>(
        &self,
        state: &mut HandleState,
        termination: &mut TerminationController,
        wait: &mut RecvWait,
        awaited: Awaited,
        received: Received<T>,
        now: Duration,
    ) -> (next: RecvNext<T>)
        ensures
            match received {
                Received::Value(value) => next == RecvNext::Done(Ok::<T, RuntimeError>(value))
                    && *final(wait) == *old(wait) && final(state)@ == old(state)@
                    && final(termination)@ == old(termination)@,
                Received::Disconnected => {
                    &&& next matches RecvNext::Done(Err(err)) && err@ == ErrorView::Internal(
                        lost_text(awaited.view()),
                    )
                    &&& *final(wait) == *old(wait)
                    &&& final(state)@ == old(state)@
                    &&& final(termination)@ == old(termination)@
                },
                Received::TimedOut => {
                    let grace = if awaited.view() is Escalating {
                        span_of(self.force_kill_grace)
                    } else {
                        None
                    };
                    let (seen_at, kill) = slice_passed(
                        grace,
                        old(termination)@.is_requested(),
                        span_of(old(wait).termination_seen_at),
                        now@,
                    );
                    &&& span_of(final(wait).termination_seen_at) == seen_at
                    &&& !kill ==> next is Again && final(state)@ == old(state)@
                        && final(termination)@ == old(termination)@
                    &&& kill ==> {
                        &&& next matches RecvNext::Done(Err(err)) && err@
                            == ErrorView::ForceKilled(
                            abandoned_text(shown(grace->0), awaited.view()->Escalating_0),
                        )
                        &&& final(termination)@ == old(termination)@.terminated()
                        &&& final(state)@ == (HandleView { shutdown: true, ..old(state)@ })
                    }
                },
            },
    {
        match received {
            Received::Value(value) => RecvNext::Done(Ok(value)),
            Received::Disconnected => RecvNext::Done(Err(recv_failure(awaited))),
            Received::TimedOut => match (awaited, self.force_kill_grace) {
                (Awaited::Escalating(what), Some(grace)) => {
                    if !termination.is_requested() {
                        return RecvNext::Again;
                    }
                    let started: Duration = match wait.termination_seen_at {
                        Some(t) => t,
                        None => now,
                    };
                    wait.termination_seen_at = Some(started);
                    if now.saturating_sub(started).is_less(grace) {
                        return RecvNext::Again;
                    }
                    let text: String = abandoned_message(&show(grace), what);
                    RecvNext::Done(Err(self.force_kill(state, termination, text)))
                },
                _ => RecvNext::Again,
            },
        }
    }

    /// The chunk that was read; the last one ends the tracking of its stream.
    pub fn stream_chunk(&self, state: &mut HandleState, stream_id: u32, payload: JSValue) -> (result:
        Result<StreamChunk, ChunkError>)
        ensures
            match result {
                Ok(chunk) => chunk_of(payload.view()) == Ok::<_, crate::stream::ChunkFault>(chunk@),
                Err(err) => chunk_of(payload.view()) == Err::<crate::stream::ChunkView, _>(err@),
            },
            final(state)@ == if chunk_of(payload.view()) is Ok && chunk_of(
                payload.view(),
            )->Ok_0.done {
                HandleView { js_streams: old(state)@.js_streams.remove(stream_id), ..old(state)@ }
            } else {
                old(state)@
            },
    {
        match StreamChunk::from_js_value(payload) {
            Ok(chunk) => {
                if chunk.done {
                    state.tracked_js_streams.remove(stream_id);
                }
                Ok(chunk)
            },
            Err(err) => Err(err),
        }
    }

    /// A stream that was released or cancelled is not tracked any longer.
    pub fn stream_gone(
        &self,
        state: &mut HandleState,
        stream_id: u32,
        result: RuntimeResult<()>,
    ) -> (r: RuntimeResult<()>)
        ensures
            r == result,
            final(state)@ == if result is Ok {
                HandleView { js_streams: old(state)@.js_streams.remove(stream_id), ..old(state)@ }
            } else {
                old(state)@
            },
    {
        if result.is_ok() {
            state.tracked_js_streams.remove(stream_id);
        }
        result
    }

    /// Register a Python async iterable as a stream and return its stream ID.
    pub fn register_py_stream(
        &self,
        state: &mut HandleState,
        registry: &mut PyStreamRegistry,
        iterable: u64,
        task_locals: u64,
    ) -> (id: u32)
        ensures
            id == old(registry)@.next_id,
            final(registry)@ == old(registry)@.registered(iterable, task_locals),
            final(state)@ == (HandleView {
                py_streams: old(state)@.py_streams.insert(id),
                ..old(state)@
            }),
    {
        let id: u32 = registry.register_iterable(iterable, task_locals);
        state.tracked_py_streams.insert(id);
        id
    }

    /// Take a Python stream out in order to cancel it in the background.
    pub fn cancel_py_stream_async(
        &self,
        state: &mut HandleState,
        registry: &mut PyStreamRegistry,
        stream_id: u32,
    ) -> (plan: Option<CancelPlan>)
        ensures
            final(registry)@ == old(registry)@.removed(stream_id),
            match plan {
                Some(p) => old(registry)@.entries.contains_key(stream_id) && p.notify@
                    == old(registry)@.listeners && p.entry == old(registry)@.entries[stream_id],
                None => !old(registry)@.entries.contains_key(stream_id),
            },
            final(state)@ == (HandleView {
                py_streams: old(state)@.py_streams.remove(stream_id),
                ..old(state)@
            }),
    {
        let plan: Option<CancelPlan> = registry.cancel(stream_id);
        state.tracked_py_streams.remove(stream_id);
        plan
    }

    /// Remove a Python stream from the registry and untrack it; returns the listeners
    /// to be told.
    pub fn release_py_stream(
        &self,
        state: &mut HandleState,
        registry: &mut PyStreamRegistry,
        stream_id: u32,
    ) -> (notify: Vec<u64>)
        ensures
            final(registry)@ == old(registry)@.removed(stream_id),
            notify@ == old(registry)@.told_of(stream_id),
            final(state)@ == (HandleView {
                py_streams: old(state)@.py_streams.remove(stream_id),
                ..old(state)@
            }),
    {
        let notify: Vec<u64> = registry.release(stream_id);
        state.tracked_py_streams.remove(stream_id);
        notify
    }

    /// Whether the runtime has been shut down or terminated.
    pub fn is_shutdown(&self, state: &HandleState, termination: &TerminationController) -> (yes: bool)
        ensures
            yes == (termination@.is_requested() || state@.shutdown),
    {
        termination.is_requested() || termination.is_terminated() || state.shutdown
    }

    /// Begins to terminate the runtime forcefully.
    pub fn terminate(&self, state: &mut HandleState, termination: &mut TerminationController) -> (step:
        TerminateStep)
        ensures
            if old(termination)@.status == TerminationStatus::Terminated {
                step == TerminateStep::Done && final(state)@ == old(state)@ && final(termination)@
                    == old(termination)@
            } else if !self.connected {
                step == TerminateStep::Done && final(state)@ == (HandleView {
                    shutdown: true,
                    ..old(state)@
                }) && final(termination)@ == old(termination)@
            } else {
                &&& step == if old(termination)@.status == TerminationStatus::Running {
                    TerminateStep::Send
                } else {
                    TerminateStep::AwaitOther
                }
                &&& final(state)@ == old(state)@
                &&& final(termination)@ == old(termination)@.with_reason(
                    "Terminated by host request"@,
                ).requested()
            },
    {
        if termination.is_terminated() {
            return TerminateStep::Done;
        }
        if !self.connected {
            state.shutdown = true;
            return TerminateStep::Done;
        }
        termination.ensure_reason("Terminated by host request");
        if termination.request() {
            TerminateStep::Send
        } else {
            TerminateStep::AwaitOther
        }
    }

    /// Waits for another's termination, bounded by the same grace so that a second
    /// caller cannot hang on a wedged thread.
    pub fn await_termination(
        &self,
        state: &mut HandleState,
        termination: &mut TerminationController,
        started: Duration,
        now: Duration,
    ) -> (step: AwaitStep)
        ensures
            ({
                let late = self.force_kill_grace is Some && crate::core_state::elapsed_nanos(
                    started@,
                    now@,
                ) >= self.force_kill_grace->0@;
                if old(termination)@.status == TerminationStatus::Terminated {
                    &&& step matches AwaitStep::Done(r) && r is Ok
                    &&& final(state)@ == old(state)@
                    &&& final(termination)@ == old(termination)@
                } else if late {
                    &&& step matches AwaitStep::Done(Err(err)) && err@ == ErrorView::ForceKilled(
                        unacknowledged_text(shown(self.force_kill_grace->0@)),
                    )
                    &&& final(state)@ == (HandleView { shutdown: true, ..old(state)@ })
                    &&& final(termination)@ == old(termination)@.terminated()
                } else {
                    &&& step matches AwaitStep::Sleep(span) && span@ == 1_000_000
                    &&& final(state)@ == old(state)@
                    &&& final(termination)@ == old(termination)@
                }
            }),
    {
        if termination.is_terminated() {
            return AwaitStep::Done(Ok(()));
        }
        if let Some(grace) = self.force_kill_grace {
            if !now.saturating_sub(started).is_less(grace) {
                let text: String = unacknowledged_message(&show(grace));
                return AwaitStep::Done(Err(self.force_kill(state, termination, text)));
            }
        }
        AwaitStep::Sleep(Duration::from_millis(TERMINATION_POLL_MS))
    }

    /// The terminate command was sent, or could not be: the engine is asked to stop
    /// only once it was.
    pub fn terminate_sent(&self, termination: &mut TerminationController, delivered: bool) -> (result:
        RuntimeResult<()>)
        ensures
            match result {
                Ok(()) => delivered && final(termination)@ == old(termination)@.stopping(),
                Err(err) => !delivered && err@ == ErrorView::Internal(
                    "Failed to send terminate command"@,
                ) && final(termination)@ == old(termination)@,
            },
    {
        if !delivered {
            return Err(RuntimeError::internal_text("Failed to send terminate command"));
        }
        termination.terminate_execution();
        Ok(())
    }

    /// The runtime confirmed the termination, or the confirmation failed.
    pub fn terminate_confirmed(
        &self,
        state: &mut HandleState,
        confirmation: RuntimeResult<RuntimeResult<()>>,
    ) -> (result: RuntimeResult<()>)
        ensures
            result == match confirmation {
                Ok(r) => r,
                Err(err) => Err(err),
            },
            final(state)@ == if result is Ok {
                HandleView { shutdown: true, ..old(state)@ }
            } else {
                old(state)@
            },
    {
        let result: RuntimeResult<()> = match confirmation {
            Ok(r) => r,
            Err(err) => Err(err),
        };
        if result.is_ok() {
            state.shutdown = true;
        }
        result
    }

    /// Begins to shut the runtime thread down gracefully.
    pub fn close(&mut self, state: &mut HandleState, termination: &TerminationController) -> (step:
        CloseStep)
        ensures
            final(self).serialization_limits == old(self).serialization_limits,
            final(self).force_kill_grace == old(self).force_kill_grace,
            if old(state)@.shutdown {
                step == CloseStep::Done && final(state)@ == old(state)@ && final(self).connected
                    == old(self).connected
            } else if termination@.is_requested() {
                step == CloseStep::Done && final(state)@ == (HandleView {
                    shutdown: true,
                    ..old(state)@
                }) && !final(self).connected
            } else {
                step == (if old(self).connected {
                    CloseStep::Send
                } else {
                    CloseStep::Done
                }) && final(state)@ == old(state)@ && !final(self).connected
            },
    {
        if state.shutdown {
            return CloseStep::Done;
        }
        if termination.is_requested() || termination.is_terminated() {
            self.connected = false;
            state.shutdown = true;
            return CloseStep::Done;
        }
        if self.connected {
            self.connected = false;
            CloseStep::Send
        } else {
            CloseStep::Done
        }
    }

    /// The shutdown command was sent and confirmed, or not.
    pub fn close_confirmed(&self, state: &mut HandleState, delivered: bool, confirmed: bool) -> (result:
        RuntimeResult<()>)
        ensures
            match result {
                Ok(()) => delivered && confirmed && final(state)@ == (HandleView {
                    shutdown: true,
                    ..old(state)@
                }),
                Err(err) => {
                    &&& !delivered || !confirmed
                    &&& err@ == ErrorView::Internal(
                        if !delivered {
                            "Failed to send shutdown command"@
                        } else {
                            "Failed to confirm runtime shutdown"@
                        },
                    )
                    &&& final(state)@ == old(state)@
                },
            },
    {
        if !delivered {
            return Err(RuntimeError::internal_text("Failed to send shutdown command"));
        }
        if !confirmed {
            return Err(RuntimeError::internal_text("Failed to confirm runtime shutdown"));
        }
        state.shutdown = true;
        Ok(())
    }

    pub fn track_function_id(&self, state: &mut HandleState, fn_id: u32)
        ensures
            final(state)@ == (HandleView {
                functions: old(state)@.functions.insert(fn_id),
                ..old(state)@
            }),
    {
        state.tracked_functions.insert(fn_id);
    }

    pub fn untrack_function_id(&self, state: &mut HandleState, fn_id: u32)
        ensures
            final(state)@ == (HandleView {
                functions: old(state)@.functions.remove(fn_id),
                ..old(state)@
            }),
    {
        state.tracked_functions.remove(fn_id);
    }

    pub fn drain_tracked_function_ids(&self, state: &mut HandleState) -> (ids: Vec<u32>)
        ensures
            ids@.no_duplicates(),
            ids@.to_set() == old(state)@.functions,
            final(state)@ == (HandleView { functions: Set::empty(), ..old(state)@ }),
    {
        state.tracked_functions.drain()
    }

    pub fn track_js_stream_id(&self, state: &mut HandleState, stream_id: u32)
        ensures
            final(state)@ == (HandleView {
                js_streams: old(state)@.js_streams.insert(stream_id),
                ..old(state)@
            }),
    {
        state.tracked_js_streams.insert(stream_id);
    }

    pub fn untrack_js_stream_id(&self, state: &mut HandleState, stream_id: u32)
        ensures
            final(state)@ == (HandleView {
                js_streams: old(state)@.js_streams.remove(stream_id),
                ..old(state)@
            }),
    {
        state.tracked_js_streams.remove(stream_id);
    }

    pub fn drain_tracked_js_stream_ids(&self, state: &mut HandleState) -> (ids: Vec<u32>)
        ensures
            ids@.no_duplicates(),
            ids@.to_set() == old(state)@.js_streams,
            final(state)@ == (HandleView { js_streams: Set::empty(), ..old(state)@ }),
    {
        state.tracked_js_streams.drain()
    }

    pub fn track_py_stream_id(&self, state: &mut HandleState, stream_id: u32)
        ensures
            final(state)@ == (HandleView {
                py_streams: old(state)@.py_streams.insert(stream_id),
                ..old(state)@
            }),
    {
        state.tracked_py_streams.insert(stream_id);
    }

    pub fn untrack_py_stream_id(&self, state: &mut HandleState, stream_id: u32)
        ensures
            final(state)@ == (HandleView {
                py_streams: old(state)@.py_streams.remove(stream_id),
                ..old(state)@
            }),
    {
        state.tracked_py_streams.remove(stream_id);
    }

    pub fn drain_tracked_py_stream_ids(&self, state: &mut HandleState) -> (ids: Vec<u32>)
        ensures
            ids@.no_duplicates(),
            ids@.to_set() == old(state)@.py_streams,
            final(state)@ == (HandleView { py_streams: Set::empty(), ..old(state)@ }),
    {
        state.tracked_py_streams.drain()
    }

    pub fn is_function_tracked(&self, state: &HandleState, fn_id: u32) -> (yes: bool)
        ensures
            yes == state@.functions.contains(fn_id),
    {
        state.tracked_functions.contains(fn_id)
    }

    pub fn tracked_function_count(&self, state: &HandleState) -> (n: usize)
        ensures
            n == state@.functions.len(),
    {
        state.tracked_functions.len()
    }

    pub fn serialization_limits(&self) -> (limits: SerializationLimits)
        ensures
            limits == self.serialization_limits,
    {
        self.serialization_limits
    }
}

/// Once a termination was requested, by whomever, no clone of the handle sends
/// anything: the caller gets the termination's error, with the reason given first.
pub proof fn law_nothing_is_sent_after_termination(
    connected: bool,
    state: HandleView,
    termination: TerminationView,
    reason: Seq<char>,
)
    ensures
        send_refusal(connected, state, termination.with_reason(reason).requested()) == Some(
            ErrorView::Terminated(
                if termination.reason is Some {
                    termination.reason
                } else {
                    Some(reason)
                },
            ),
        ),
{
}

/// A force-kill is final: afterwards nothing is sent, and no later termination or
/// cleared request brings the runtime back.
pub proof fn law_force_kill_is_final(
    connected: bool,
    state: HandleView,
    termination: TerminationView,
)
    ensures
        send_refusal(
            connected,
            HandleView { shutdown: true, ..state },
            termination.terminated(),
        ) is Some,
        termination.terminated().requested() == termination.terminated(),
        termination.terminated().unlatched().is_requested(),
{
}

/// A runtime is abandoned only after a termination was requested and the whole grace
/// period passed since the caller saw it; with no grace period it never is. Once the
/// period has passed the caller does not wait any longer.
pub proof fn law_grace_is_given_in_full(
    grace: Option<nat>,
    requested: bool,
    seen_at: Option<nat>,
    now: nat,
)
    requires
        seen_at is Some ==> seen_at->0 <= now,
    ensures
        slice_passed(grace, requested, seen_at, now).1 <==> {
            &&& grace is Some
            &&& requested
            &&& match seen_at {
                Some(t) => now >= t + grace->0,
                None => grace->0 == 0,
            }
        },
        requested && grace is Some ==> slice_passed(grace, requested, seen_at, now).0 is Some,
{
}

/// A closed handle sends nothing.
pub proof fn law_closed_handle_sends_nothing(state: HandleView, termination: TerminationView)
    ensures
        send_refusal(false, state, termination) is Some,
        send_refusal(true, HandleView { shutdown: true, ..state }, termination) is Some,
{
}

} // verus!
