//! `Runtime`: what Python calls, and in which order the runtime thread is asked.

use crate::handle::{HandleState, HandleView, RuntimeHandle};
use crate::ops::{OpToken, PythonOpMode};
use crate::termination::TerminationController;
use crate::text::{decimal, join3, push_decimal, str_eq};
use vstd::prelude::*;

verus! {

/// What a failure of the runtime is reported as part of.
#[derive(Clone, Copy, Debug, PartialEq, Eq, Structural)]
pub enum CallContext {
    Spawn,
    Evaluation,
    ModuleEvaluation,
    Stats,
    Shutdown,
    Termination,
    OpRegistration,
    OpRevocation,
    BindObject,
    ModuleResolver,
    ModuleLoader,
    StaticModule,
    FunctionCall,
    FunctionRelease,
    StreamRegistration,
}

/// The text that a failure is prefixed with.
pub open spec fn context_text(context: CallContext) -> Seq<char> {
    match context {
        CallContext::Spawn => "Failed to spawn runtime"@,
        CallContext::Evaluation => "Evaluation failed"@,
        CallContext::ModuleEvaluation => "Module evaluation failed"@,
        CallContext::Stats => "Failed to obtain runtime stats"@,
        CallContext::Shutdown => "Shutdown failed"@,
        CallContext::Termination => "Termination failed"@,
        CallContext::OpRegistration => "Op registration failed"@,
        CallContext::OpRevocation => "Op revocation failed"@,
        CallContext::BindObject => "Failed to bind object"@,
        CallContext::ModuleResolver => "Failed to set module resolver"@,
        CallContext::ModuleLoader => "Failed to set module loader"@,
        CallContext::StaticModule => "Failed to add static module"@,
        CallContext::FunctionCall => "Function call failed"@,
        CallContext::FunctionRelease => "Failed to release function"@,
        CallContext::StreamRegistration => "Stream registration failed"@,
    }
}

impl CallContext {
    pub fn as_str(self) -> (text: &'static str)
        ensures
            text@ == context_text(self),
    {
        match self {
            CallContext::Spawn => "Failed to spawn runtime",
            CallContext::Evaluation => "Evaluation failed",
            CallContext::ModuleEvaluation => "Module evaluation failed",
            CallContext::Stats => "Failed to obtain runtime stats",
            CallContext::Shutdown => "Shutdown failed",
            CallContext::Termination => "Termination failed",
            CallContext::OpRegistration => "Op registration failed",
            CallContext::OpRevocation => "Op revocation failed",
            CallContext::BindObject => "Failed to bind object",
            CallContext::ModuleResolver => "Failed to set module resolver",
            CallContext::ModuleLoader => "Failed to set module loader",
            CallContext::StaticModule => "Failed to add static module",
            CallContext::FunctionCall => "Function call failed",
            CallContext::FunctionRelease => "Failed to release function",
            CallContext::StreamRegistration => "Stream registration failed",
        }
    }
}

/// The mode of a handler that is a coroutine function, or whose `__call__` is one.
/// `call` is `None` for a handler without `__call__`.
pub fn detect_mode(coroutine: bool, call: Option<bool>) -> (mode: PythonOpMode)
    ensures
        mode == if coroutine || call == Some(true) {
            PythonOpMode::Async
        } else {
            PythonOpMode::Sync
        },
{
    let through_call: bool = match call {
        Some(yes) => yes,
        None => false,
    };
    if coroutine || through_call {
        PythonOpMode::Async
    } else {
        PythonOpMode::Sync
    }
}

/// The mode that an op is registered with, or why the asked one does not fit.
pub open spec fn mode_for(asked: Seq<char>, detected: PythonOpMode) -> Result<
    PythonOpMode,
    Seq<char>,
> {
    if asked == "sync"@ {
        if detected == PythonOpMode::Async {
            Err("Handler is async but mode='sync'; use mode='async'"@)
        } else {
            Ok(detected)
        }
    } else if asked == "async"@ {
        if detected == PythonOpMode::Sync {
            Err("Handler is sync but mode='async'; use mode='sync'"@)
        } else {
            Ok(detected)
        }
    } else {
        Err("Invalid mode '"@ + asked + "', expected 'sync' or 'async'"@)
    }
}

/// Checks the asked mode against the handler.
pub fn checked_mode(asked: &str, detected: PythonOpMode) -> (result: Result<PythonOpMode, String>)
    ensures
        match result {
            Ok(mode) => mode_for(asked@, detected) == Ok::<_, Seq<char>>(mode),
            Err(text) => mode_for(asked@, detected) == Err::<PythonOpMode, _>(text@),
        },
{
    if str_eq(asked, "sync") {
        if detected == PythonOpMode::Async {
            Err("Handler is async but mode='sync'; use mode='async'".to_owned())
        } else {
            Ok(detected)
        }
    } else if str_eq(asked, "async") {
        if detected == PythonOpMode::Sync {
            Err("Handler is sync but mode='async'; use mode='sync'".to_owned())
        } else {
            Ok(detected)
        }
    } else {
        Err(join3("Invalid mode '", asked, "', expected 'sync' or 'async'"))
    }
}

/// The script that installs a bound function in the global scope.
pub open spec fn binding_script(name: Seq<char>, mode: PythonOpMode, op_id: u64) -> Seq<char> {
    "globalThis."@ + name + " = (...args) => "@ + (match mode {
        PythonOpMode::Sync => "__host_op_sync__"@,
        PythonOpMode::Async => "__host_op_async__"@,
    }) + "("@ + decimal(op_id as nat) + ", ...args); void 0;"@
}

/// The script that installs a bound function in the global scope.
pub fn bind_script(name: &str, mode: PythonOpMode, op_id: OpToken) -> (script: String)
    ensures
        script@ == binding_script(name@, mode, op_id),
{
    let mut script = join3("globalThis.", name, " = (...args) => ");
    match mode {
        PythonOpMode::Sync => script.append("__host_op_sync__"),
        PythonOpMode::Async => script.append("__host_op_async__"),
    }
    script.append("(");
    push_decimal(&mut script, op_id);
    script.append(", ...args); void 0;");
    script
}

/// The name under which a member of a bound object is registered.
pub fn member_name(object: &str, key: &str) -> (name: String)
    ensures
        name@ == object@ + "."@ + key@,
{
    join3(object, ".", key)
}

/// How an op is given to JavaScript.
#[derive(Debug)]
pub enum OpTarget {
    /// Its token is handed to the caller.
    Token,
    /// A script installs it under this name in the global scope.
    Global { name: String },
}

/// Where the registration of an op stands.
#[derive(Clone, Copy, Debug, PartialEq, Eq, Structural)]
pub enum OpStage {
    Registering,
    Installing { op_id: OpToken },
    Exposing { op_id: OpToken },
    Ended,
}

/// The registration of an op: register, install, and expose last, so that a binding
/// that failed leaves the handler registered but not dispatchable.
#[derive(Debug)]
pub struct OpBinding {
    pub target: OpTarget,
    pub mode: PythonOpMode,
    pub stage: OpStage,
}

/// What came of the step that was asked for.
#[derive(Debug)]
pub enum OpOutcome {
    Registered(OpToken),
    Installed,
    Exposed,
    /// The step failed.
    Failed,
}

/// What is done next.
#[derive(Debug)]
pub enum OpStep {
    /// Run the script that installs the binding.
    Install { script: String },
    /// Expose the op.
    Expose { op_id: OpToken },
    /// The op is registered and exposed.
    Done { op_id: OpToken },
    /// The failure of the step is the caller's.
    Failed,
}

/// What follows an outcome: the stage, and what is done.
pub open spec fn op_next(binding: OpBinding, outcome: OpOutcome, stage: OpStage, step: OpStep) -> bool {
    match (binding.stage, outcome) {
        (OpStage::Registering, OpOutcome::Registered(op_id)) => match binding.target {
            OpTarget::Token => stage == (OpStage::Exposing { op_id }) && step == (OpStep::Expose {
                op_id,
            }),
            OpTarget::Global { name } => stage == (OpStage::Installing { op_id }) && (
            step matches OpStep::Install { script } && script@ == binding_script(
                name@,
                binding.mode,
                op_id,
            )),
        },
        (OpStage::Installing { op_id }, OpOutcome::Installed) => stage == (OpStage::Exposing {
            op_id,
        }) && step == (OpStep::Expose { op_id }),
        (OpStage::Exposing { op_id }, OpOutcome::Exposed) => stage == OpStage::Ended && step == (
        OpStep::Done { op_id }),
        _ => stage == OpStage::Ended && step is Failed,
    }
}

impl OpBinding {
    /// Begins with the registration.
    pub fn new(target: OpTarget, mode: PythonOpMode) -> (binding: Self)
        ensures
            binding == (OpBinding { target, mode, stage: OpStage::Registering }),
    {
        OpBinding { target, mode, stage: OpStage::Registering }
    }

    /// Takes in what came of a step; an outcome that was not asked for ends the
    /// binding.
    pub fn next(&mut self, outcome: OpOutcome) -> (step: OpStep)
        ensures
            final(self).target == old(self).target,
            final(self).mode == old(self).mode,
            op_next(*old(self), outcome, final(self).stage, step),
    {
        match (self.stage, outcome) {
            (OpStage::Registering, OpOutcome::Registered(op_id)) => match &self.target {
                OpTarget::Token => {
                    self.stage = OpStage::Exposing { op_id };
                    OpStep::Expose { op_id }
                },
                OpTarget::Global { name } => {
                    let script: String = bind_script(name, self.mode, op_id);
                    self.stage = OpStage::Installing { op_id };
                    OpStep::Install { script }
                },
            },
            (OpStage::Installing { op_id }, OpOutcome::Installed) => {
                self.stage = OpStage::Exposing { op_id };
                OpStep::Expose { op_id }
            },
            (OpStage::Exposing { op_id }, OpOutcome::Exposed) => {
                self.stage = OpStage::Ended;
                OpStep::Done { op_id }
            },
            _ => {
                self.stage = OpStage::Ended;
                OpStep::Failed
            },
        }
    }
}

/// A JavaScript runtime, as Python holds it.
#[derive(Clone, Copy, Debug)]
pub struct Runtime {
    /// The handle, until the runtime is closed.
    pub handle: Option<RuntimeHandle>,
}

impl Runtime {
    pub fn new(handle: RuntimeHandle) -> (runtime: Self)
        ensures
            runtime.handle == Some(handle),
    {
        Runtime { handle: Some(handle) }
    }

    /// The handle, while the runtime is not closed.
    pub fn live_handle(&self) -> (result: Result<RuntimeHandle, String>)
        ensures
            match result {
                Ok(handle) => self.handle == Some(handle),
                Err(text) => self.handle is None && text@ == "Runtime has been closed"@,
            },
    {
        match self.handle {
            Some(handle) => Ok(handle),
            None => Err("Runtime has been closed".to_owned()),
        }
    }

    /// Whether the runtime was closed, shut down or terminated.
    pub fn is_closed(&self, state: &HandleState, termination: &TerminationController) -> (yes: bool)
        ensures
            yes == (self.handle is None || termination@.is_requested() || state@.shutdown),
    {
        match &self.handle {
            Some(handle) => handle.is_shutdown(state, termination),
            None => true,
        }
    }

    /// How many functions are tracked; none once the runtime is closed.
    pub fn tracked_function_count(&self, state: &HandleState) -> (n: usize)
        ensures
            n == if self.handle is Some {
                state@.functions.len()
            } else {
                0
            },
    {
        match &self.handle {
            Some(handle) => handle.tracked_function_count(state),
            None => 0,
        }
    }

    /// Begins to close the runtime; `None` when it was closed before.
    pub fn close(&mut self, state: &mut HandleState) -> (work: Option<CloseWork>)
        ensures
            final(self).handle is None,
            match work {
                Some(w) => {
                    &&& old(self).handle == Some(w.handle)
                    &&& w.stage == CloseStage::JsStreams
                    &&& w.ids@.no_duplicates()
                    &&& w.ids@.to_set() == old(state)@.js_streams
                    &&& final(state)@ == (HandleView { js_streams: Set::empty(), ..old(state)@ })
                },
                None => old(self).handle is None && final(state)@ == old(state)@,
            },
    {
        match self.handle {
            Some(handle) => {
                self.handle = None;
                let ids: Vec<u32> = handle.drain_tracked_js_stream_ids(state);
                Some(CloseWork { handle, stage: CloseStage::JsStreams, ids })
            },
            None => None,
        }
    }
}

/// What is being cleaned up.
#[derive(Clone, Copy, Debug, PartialEq, Eq, Structural)]
pub enum CloseStage {
    JsStreams,
    PyStreams,
    Functions,
    Finish,
}

/// The clean-up of a runtime that is closed: JavaScript streams, then Python streams,
/// then functions, then the runtime thread itself.
#[derive(Debug)]
pub struct CloseWork {
    pub handle: RuntimeHandle,
    pub stage: CloseStage,
    /// What is left of the stage.
    pub ids: Vec<u32>,
}

/// What is cleaned up next.
#[derive(Clone, Copy, Debug, PartialEq, Eq, Structural)]
pub enum CloseAction {
    ReleaseStream(u32),
    CancelPyStream(u32),
    ReleaseFunction(u32),
    /// Nothing; go on.
    NextStage,
    /// Close the handle.
    Close,
}

impl CloseWork {
    /// What is cleaned up next. A failure of one step does not stop the clean-up; what
    /// needs the runtime thread is left out once the runtime is shut down.
    pub fn next(&mut self, state: &mut HandleState, termination: &TerminationController) -> (action:
        CloseAction)
        ensures
            final(self).handle == old(self).handle,
            ({
                let gone = termination@.is_requested() || old(state)@.shutdown;
                let ids = old(self).ids@;
                match old(self).stage {
                    CloseStage::JsStreams => if ids.len() > 0 && !gone {
                        &&& action == CloseAction::ReleaseStream(ids.last())
                        &&& final(self).stage == old(self).stage
                        &&& final(self).ids@ == ids.drop_last()
                        &&& final(state)@ == old(state)@
                    } else {
                        &&& action == CloseAction::NextStage
                        &&& final(self).stage == CloseStage::PyStreams
                        &&& final(self).ids@.no_duplicates()
                        &&& final(self).ids@.to_set() == old(state)@.py_streams
                        &&& final(state)@ == (HandleView {
                            py_streams: Set::empty(),
                            ..old(state)@
                        })
                    },
                    CloseStage::PyStreams => if ids.len() > 0 {
                        &&& action == CloseAction::CancelPyStream(ids.last())
                        &&& final(self).stage == old(self).stage
                        &&& final(self).ids@ == ids.drop_last()
                        &&& final(state)@ == old(state)@
                    } else {
                        &&& action == CloseAction::NextStage
                        &&& final(self).stage == CloseStage::Functions
                        &&& final(self).ids@.no_duplicates()
                        &&& final(self).ids@.to_set() == old(state)@.functions
                        &&& final(state)@ == (HandleView { functions: Set::empty(), ..old(state)@ })
                    },
                    CloseStage::Functions => if ids.len() > 0 && !gone {
                        &&& action == CloseAction::ReleaseFunction(ids.last())
                        &&& final(self).stage == old(self).stage
                        &&& final(self).ids@ == ids.drop_last()
                        &&& final(state)@ == old(state)@
                    } else {
                        &&& action == CloseAction::Close
                        &&& final(self).stage == CloseStage::Finish
                        &&& final(self).ids@ == ids
                        &&& final(state)@ == old(state)@
                    },
                    CloseStage::Finish => {
                        &&& action == CloseAction::Close
                        &&& final(self).stage == CloseStage::Finish
                        &&& final(self).ids@ == ids
                        &&& final(state)@ == old(state)@
                    },
                }
            }),
    {
        let gone: bool = self.handle.is_shutdown(state, termination);
        match self.stage {
            CloseStage::JsStreams => {
                if !gone {
                    if let Some(id) = self.ids.pop() {
                        return CloseAction::ReleaseStream(id);
                    }
                }
                self.ids = self.handle.drain_tracked_py_stream_ids(state);
                self.stage = CloseStage::PyStreams;
                CloseAction::NextStage
            },
            CloseStage::PyStreams => {
                if let Some(id) = self.ids.pop() {
                    return CloseAction::CancelPyStream(id);
                }
                self.ids = self.handle.drain_tracked_function_ids(state);
                self.stage = CloseStage::Functions;
                CloseAction::NextStage
            },
            CloseStage::Functions => {
                if !gone {
                    if let Some(id) = self.ids.pop() {
                        return CloseAction::ReleaseFunction(id);
                    }
                }
                self.stage = CloseStage::Finish;
                CloseAction::Close
            },
            CloseStage::Finish => CloseAction::Close,
        }
    }
}

/// Relays the cancellation of a Python future to the task that works for it, once.
#[derive(Clone, Copy, Debug)]
pub struct CancelCallback {
    pub armed: bool,
}

impl CancelCallback {
    /// The future is done; `true` when the task is to be told that it was cancelled.
    pub fn call(&mut self, cancelled: bool) -> (tell: bool)
        ensures
            tell == (cancelled && old(self).armed),
            final(self).armed == (old(self).armed && !cancelled),
    {
        if cancelled && self.armed {
            self.armed = false;
            true
        } else {
            false
        }
    }
}

/// Whether a Python future still takes a result.
pub fn takes_result(done: bool, cancelled: bool) -> (yes: bool)
    ensures
        yes == (!done && !cancelled),
{
    !done && !cancelled
}

/// An op is exposed only after it was installed: of a binding under a name, every
/// failure before the script ran to its end leaves the op unexposed.
pub proof fn law_exposed_last(binding: OpBinding, outcome: OpOutcome, stage: OpStage, step: OpStep)
    requires
        op_next(binding, outcome, stage, step),
        binding.target is Global,
        step is Expose,
    ensures
        binding.stage is Installing,
        outcome is Installed,
        step->Expose_op_id == binding.stage->Installing_op_id,
{
}

} // verus!
