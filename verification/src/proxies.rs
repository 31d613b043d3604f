//! Lifecycle of the Python proxies for JavaScript functions and streams.
//!
//! A proxy holds its runtime handle until it is closed. What goes over the handle is
//! sent from outside; the proxies decide what is sent and what their state becomes.

use crate::handle::{HandleState, HandleView, RuntimeHandle};
use crate::js_value::{lemma_view, JSValue};
use crate::limits::SerializationLimits;
use crate::stream::{option_view, CancelPlan, PyStreamRegistry, StreamChunk};
use crate::termination::{TerminationController, TerminationStatus};
use crate::text::{decimal, decimal_string, join3};
use vstd::prelude::*;

verus! {

broadcast use lemma_view;

/// An id with its failure by what it says.
pub open spec fn id_result(result: Result<u32, String>) -> Result<u32, Seq<char>> {
    match result {
        Ok(id) => Ok(id),
        Err(text) => Err(text@),
    }
}

/// The id under which a function goes back to JavaScript, or why it cannot.
pub open spec fn transferred_function(function: JsFunction, shut_down: bool) -> Result<
    u32,
    Seq<char>,
> {
    if function.closed {
        Err("Function has been closed"@)
    } else if function.attached && !shut_down {
        Ok(function.fn_id)
    } else {
        Err("Runtime has been shut down"@)
    }
}

/// The id under which a Python stream goes to JavaScript, or why it cannot.
pub open spec fn transferred_stream(source: PyStreamSource) -> Result<u32, Seq<char>> {
    if source.closed {
        Err("Stream has been closed"@)
    } else if source.attached {
        Ok(source.stream_id)
    } else {
        Err("Runtime has been shut down"@)
    }
}

/// How a proxy is shown.
pub open spec fn proxy_text(name: Seq<char>, closed: bool, id: u32) -> Seq<char> {
    if closed {
        "<"@ + name + " (closed)>"@
    } else {
        "<"@ + name + " id="@ + decimal(id as nat) + ">"@
    }
}

fn proxy_repr(name: &str, closed: bool, id: u32) -> (text: String)
    ensures
        text@ == proxy_text(name@, closed, id),
{
    if closed {
        join3("<", name, " (closed)>")
    } else {
        let mut text = join3("<", name, " id=");
        text.append(&decimal_string(id as u64));
        text.append(">");
        text
    }
}

/// Python proxy for a JavaScript function.
#[derive(Clone, Copy, Debug)]
pub struct JsFunction {
    pub fn_id: u32,
    pub closed: bool,
    /// The proxy still holds its runtime handle.
    pub attached: bool,
    pub serialization_limits: SerializationLimits,
}

/// What closing a function asks for.
#[derive(Clone, Copy, Debug, PartialEq, Eq, Structural)]
pub enum FunctionClose {
    /// It was closed before.
    Nothing,
    /// Release it, and report with [`JsFunction::released`].
    Release,
}

impl JsFunction {
    /// A proxy for a function, which is tracked from now on.
    pub fn new(
        handle: &RuntimeHandle,
        state: &mut HandleState,
        fn_id: u32,
        serialization_limits: SerializationLimits,
    ) -> (function: Self)
        ensures
            function == (JsFunction { fn_id, closed: false, attached: true, serialization_limits }),
            final(state)@ == (HandleView {
                functions: old(state)@.functions.insert(fn_id),
                ..old(state)@
            }),
    {
        handle.track_function_id(state, fn_id);
        JsFunction { fn_id, closed: false, attached: true, serialization_limits }
    }

    /// The function ID for transfer back to JavaScript, validated up front to
    /// avoid a cryptic "Function ID not found" from the runtime thread.
    pub fn function_id_for_transfer(&self, shut_down: bool) -> (result: Result<u32, String>)
        ensures
            id_result(result) == transferred_function(*self, shut_down),
    {
        if self.closed {
            return Err("Function has been closed".to_owned());
        }
        if self.attached && !shut_down {
            Ok(self.fn_id)
        } else {
            Err("Runtime has been shut down".to_owned())
        }
    }

    /// The function to call, while the proxy is open and holds its handle.
    pub fn live_handle(&self) -> (result: Result<u32, String>)
        ensures
            id_result(result) == transferred_function(*self, false),
    {
        self.function_id_for_transfer(false)
    }

    /// Begins to close the proxy. It can no longer be invoked afterwards.
    pub fn close(&mut self) -> (result: Result<FunctionClose, String>)
        ensures
            final(self).fn_id == old(self).fn_id,
            final(self).serialization_limits == old(self).serialization_limits,
            match result {
                Ok(FunctionClose::Nothing) => old(self).closed && *final(self) == *old(self),
                Ok(FunctionClose::Release) => !old(self).closed && old(self).attached && final(
                    self
                ).closed && !final(self).attached,
                Err(text) => !old(self).closed && !old(self).attached && text@
                    == "Runtime has been shut down"@ && *final(self) == *old(self),
            },
    {
        if self.closed {
            return Ok(FunctionClose::Nothing);
        }
        match self.live_handle() {
            Ok(_) => {
                self.attached = false;
                self.closed = true;
                Ok(FunctionClose::Release)
            },
            Err(text) => Err(text),
        }
    }

    /// The release was tried: whatever came of it, the function is not tracked any
    /// longer.
    pub fn released(&self, handle: &RuntimeHandle, state: &mut HandleState)
        ensures
            final(state)@ == (HandleView {
                functions: old(state)@.functions.remove(self.fn_id),
                ..old(state)@
            }),
    {
        handle.untrack_function_id(state, self.fn_id);
    }

    /// How Python shows the function.
    pub fn repr(&self) -> (text: String)
        ensures
            text@ == proxy_text("JsFunction"@, self.closed, self.fn_id),
    {
        proxy_repr("JsFunction", self.closed, self.fn_id)
    }
}

/// Releases a function when its proxy is collected.
#[derive(Clone, Copy, Debug)]
pub struct JsFunctionFinalizer {
    pub attached: bool,
    pub fn_id: u32,
}

/// What finalizing asks for.
#[derive(Clone, Copy, Debug, PartialEq, Eq, Structural)]
pub enum Finalize {
    /// Nothing: the function was released before, or its runtime is gone.
    Nothing,
    /// Release the function, and untrack it afterwards.
    Release,
}

impl JsFunctionFinalizer {
    /// The proxy was collected. It happens once; a function that was released before
    /// is left alone.
    pub fn call(
        &mut self,
        handle: &RuntimeHandle,
        state: &mut HandleState,
        termination: &TerminationController,
    ) -> (r: Finalize)
        ensures
            *final(self) == (JsFunctionFinalizer { attached: false, fn_id: old(self).fn_id }),
            ({
                let known = old(self).attached && old(state)@.functions.contains(
                    old(self).fn_id,
                );
                let gone = termination@.is_requested() || old(state)@.shutdown;
                &&& r == if known && !gone {
                    Finalize::Release
                } else {
                    Finalize::Nothing
                }
                &&& final(state)@ == if known && gone {
                    HandleView {
                        functions: old(state)@.functions.remove(old(self).fn_id),
                        ..old(state)@
                    }
                } else {
                    old(state)@
                }
            }),
    {
        if !self.attached {
            return Finalize::Nothing;
        }
        self.attached = false;
        if !handle.is_function_tracked(state, self.fn_id) {
            return Finalize::Nothing;
        }
        if handle.is_shutdown(state, termination) {
            handle.untrack_function_id(state, self.fn_id);
            Finalize::Nothing
        } else {
            Finalize::Release
        }
    }
}

/// What a `JsStream` proxy and its finalizer share.
#[derive(Clone, Copy, Debug)]
pub struct StreamSharedState {
    pub stream_id: u32,
    pub closed: bool,
    pub attached: bool,
}

/// The stream after it was closed from this side, and whether it is cancelled.
pub open spec fn stream_cancelled(state: StreamSharedState) -> (StreamSharedState, bool) {
    if state.closed {
        (state, false)
    } else {
        (
            StreamSharedState { stream_id: state.stream_id, closed: true, attached: false },
            state.attached,
        )
    }
}

impl StreamSharedState {
    pub fn is_closed(&self) -> (closed: bool)
        ensures
            closed == self.closed,
    {
        self.closed
    }

    /// The stream ended on the other side: there is nothing to cancel.
    pub fn mark_remote_closed(&mut self)
        ensures
            *final(self) == (StreamSharedState {
                stream_id: old(self).stream_id,
                closed: true,
                attached: false,
            }),
    {
        self.closed = true;
        self.attached = false;
    }

    /// Closes the stream; `true` when it is to be cancelled, which happens once.
    pub fn cancel(&mut self) -> (send: bool)
        ensures
            (*final(self), send) == stream_cancelled(*old(self)),
    {
        if self.closed {
            return false;
        }
        self.closed = true;
        let send: bool = self.attached;
        self.attached = false;
        send
    }
}

/// Python proxy for a JavaScript stream.
#[derive(Clone, Copy, Debug)]
pub struct JsStream {
    pub state: StreamSharedState,
}

/// Why there is no next chunk.
#[derive(Debug)]
pub enum StreamEnd {
    /// The iteration is over, with this text.
    Stop(&'static str),
    /// The runtime is gone.
    Failed(String),
}

impl JsStream {
    /// A proxy for a stream, which is tracked from now on.
    pub fn new(handle: &RuntimeHandle, state: &mut HandleState, stream_id: u32) -> (stream: Self)
        ensures
            stream.state == (StreamSharedState { stream_id, closed: false, attached: true }),
            final(state)@ == (HandleView {
                js_streams: old(state)@.js_streams.insert(stream_id),
                ..old(state)@
            }),
    {
        handle.track_js_stream_id(state, stream_id);
        JsStream { state: StreamSharedState { stream_id, closed: false, attached: true } }
    }

    /// The stream to read the next chunk from.
    pub fn anext(&self) -> (result: Result<u32, StreamEnd>)
        ensures
            match result {
                Ok(id) => !self.state.closed && self.state.attached && id == self.state.stream_id,
                Err(StreamEnd::Stop(text)) => self.state.closed && text@ == "Stream closed"@,
                Err(StreamEnd::Failed(text)) => !self.state.closed && !self.state.attached
                    && text@ == "Runtime has been shut down"@,
            },
    {
        if self.state.is_closed() {
            return Err(StreamEnd::Stop("Stream closed"));
        }
        if !self.state.attached {
            return Err(StreamEnd::Failed("Runtime has been shut down".to_owned()));
        }
        Ok(self.state.stream_id)
    }

    /// Takes in a chunk: its value, or the end of the iteration with the last one.
    pub fn chunk_read(&mut self, chunk: StreamChunk) -> (result: Result<Option<JSValue>, StreamEnd>)
        ensures
            match result {
                Ok(value) => !chunk@.done && option_view(value) == chunk@.value && *final(self)
                    == *old(self),
                Err(StreamEnd::Stop(text)) => chunk@.done && text@ == ""@ && final(self).state == (
                StreamSharedState {
                    stream_id: old(self).state.stream_id,
                    closed: true,
                    attached: false,
                }),
                Err(StreamEnd::Failed(_)) => false,
            },
    {
        if chunk.done {
            self.state.mark_remote_closed();
            return Err(StreamEnd::Stop(""));
        }
        Ok(chunk.value)
    }

    /// How Python shows the stream.
    pub fn repr(&self) -> (text: String)
        ensures
            text@ == proxy_text("JsStream"@, self.state.closed, self.state.stream_id),
    {
        proxy_repr("JsStream", self.state.is_closed(), self.state.stream_id)
    }
}

/// Python proxy for an async iterable that is a stream to JavaScript.
#[derive(Clone, Copy, Debug)]
pub struct PyStreamSource {
    pub stream_id: u32,
    pub closed: bool,
    /// The proxy still holds its runtime handle.
    pub attached: bool,
}

/// The source after it was closed, and whether its stream is cancelled.
pub open spec fn source_closed(source: PyStreamSource) -> (PyStreamSource, bool) {
    if source.closed {
        (source, false)
    } else {
        (
            PyStreamSource { stream_id: source.stream_id, closed: true, attached: false },
            source.attached,
        )
    }
}

impl PyStreamSource {
    /// Registers an iterable, which is tracked from now on.
    pub fn new(
        handle: &RuntimeHandle,
        state: &mut HandleState,
        registry: &mut PyStreamRegistry,
        iterable: u64,
        task_locals: u64,
    ) -> (source: Self)
        ensures
            source == (PyStreamSource {
                stream_id: old(registry)@.next_id,
                closed: false,
                attached: true,
            }),
            final(registry)@ == old(registry)@.registered(iterable, task_locals),
            final(state)@ == (HandleView {
                py_streams: old(state)@.py_streams.insert(old(registry)@.next_id),
                ..old(state)@
            }),
    {
        let stream_id: u32 = handle.register_py_stream(
            state,
            registry,
            iterable,
            task_locals,
        );
        PyStreamSource { stream_id, closed: false, attached: true }
    }

    /// The stream ID for transfer to JavaScript.
    pub fn stream_id_for_transfer(&self) -> (result: Result<u32, String>)
        ensures
            id_result(result) == transferred_stream(*self),
    {
        if self.closed {
            return Err("Stream has been closed".to_owned());
        }
        if !self.attached {
            return Err("Runtime has been shut down".to_owned());
        }
        Ok(self.stream_id)
    }

    /// Closes the source; `true` when its stream is to be cancelled, which happens
    /// once.
    pub fn close_py(&mut self) -> (cancel: bool)
        ensures
            (*final(self), cancel) == source_closed(*old(self)),
    {
        if self.closed {
            return false;
        }
        self.closed = true;
        let cancel: bool = self.attached;
        self.attached = false;
        cancel
    }

    /// How Python shows the source.
    pub fn repr(&self) -> (text: String)
        ensures
            text@ == proxy_text("PyStreamSource"@, self.closed, self.stream_id),
    {
        proxy_repr("PyStreamSource", self.closed, self.stream_id)
    }
}

/// Cancels a Python stream when its proxy is collected.
#[derive(Clone, Copy, Debug)]
pub struct PyStreamFinalizer {
    pub attached: bool,
    pub stream_id: u32,
}

impl PyStreamFinalizer {
    /// The proxy was collected: its stream is taken out in order to cancel it, once.
    pub fn call(
        &mut self,
        handle: &RuntimeHandle,
        state: &mut HandleState,
        registry: &mut PyStreamRegistry,
    ) -> (plan: Option<CancelPlan>)
        ensures
            *final(self) == (PyStreamFinalizer { attached: false, stream_id: old(self).stream_id }),
            old(self).attached ==> {
                &&& final(registry)@ == old(registry)@.removed(old(self).stream_id)
                &&& match plan {
                    Some(p) => old(registry)@.entries.contains_key(old(self).stream_id)
                        && p.notify@ == old(registry)@.listeners && p.entry
                        == old(registry)@.entries[old(self).stream_id],
                    None => !old(registry)@.entries.contains_key(old(self).stream_id),
                }
                &&& final(state)@ == (HandleView {
                    py_streams: old(state)@.py_streams.remove(old(self).stream_id),
                    ..old(state)@
                })
            },
            !old(self).attached ==> plan is None && final(registry)@ == old(registry)@ && final(
                state
            )@ == old(state)@,
    {
        if !self.attached {
            return None;
        }
        self.attached = false;
        handle.cancel_py_stream_async(state, registry, self.stream_id)
    }
}

/// A handle for killing a runaway evaluation from any thread.
#[derive(Clone, Copy, Debug)]
pub struct TerminationHandle {}

impl TerminationHandle {
    /// Interrupt the currently running (or next) execution. The request is flagged
    /// first, so that the runtime thread treats the aborted execution as a real
    /// termination.
    pub fn terminate(&self, termination: &mut TerminationController)
        ensures
            final(termination)@ == old(termination)@.with_reason(
                "Terminated via TerminationHandle from another thread"@,
            ).requested().stopping(),
    {
        termination.ensure_reason("Terminated via TerminationHandle from another thread");
        let _ = termination.request();
        termination.terminate_execution();
    }

    /// Whether the isolate has fully processed a termination request.
    pub fn is_terminated(&self, termination: &TerminationController) -> (yes: bool)
        ensures
            yes == (termination@.status == TerminationStatus::Terminated),
    {
        termination.is_terminated()
    }

    /// How Python shows the handle.
    pub fn repr(&self, termination: &TerminationController) -> (text: String)
        ensures
            text@ == "<TerminationHandle terminated="@ + (if termination@.status
                == TerminationStatus::Terminated {
                "true"@
            } else {
                "false"@
            }) + ">"@,
    {
        let shown: &str = if self.is_terminated(termination) {
            "true"
        } else {
            "false"
        };
        join3("<TerminationHandle terminated=", shown, ">")
    }
}

/// A closed function is neither called nor handed back to JavaScript, and closing it
/// again releases nothing.
pub proof fn law_closed_function_stays_closed(function: JsFunction, shut_down: bool)
    requires
        function.closed,
    ensures
        transferred_function(function, shut_down) == Err::<u32, _>("Function has been closed"@),
{
}

/// However often a proxy is closed, or collected after it was closed, its stream is
/// cancelled at most once.
pub proof fn law_streams_are_cancelled_once(state: StreamSharedState, source: PyStreamSource)
    ensures
        !stream_cancelled(stream_cancelled(state).0).1,
        stream_cancelled(state).0.closed,
        !source_closed(source_closed(source).0).1,
        source_closed(source).0.closed,
        transferred_stream(source_closed(source).0) is Err,
{
}

} // verus!
