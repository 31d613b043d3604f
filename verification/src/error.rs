//! Errors that runtime operations report.

use crate::text::{contains, has_substring, join3};
use vstd::prelude::*;

verus! {

/// One frame of a JavaScript stack trace.
#[derive(Debug)]
pub struct JsFrameSummary {
    pub function_name: Option<String>,
    pub file_name: Option<String>,
    pub line_number: Option<i64>,
    pub column_number: Option<i64>,
}

/// What is known of a thrown JavaScript exception.
#[derive(Debug)]
pub struct JsExceptionDetails {
    pub name: Option<String>,
    pub message: Option<String>,
    pub stack: Option<String>,
    pub frames: Vec<JsFrameSummary>,
    /// The exception in one line, as it is shown to the caller.
    pub summary: String,
}

/// A failed runtime operation.
#[derive(Debug)]
pub enum RuntimeError {
    /// JavaScript code threw.
    JavaScript(JsExceptionDetails),
    /// A deadline passed.
    Timeout { context: String },
    /// The library, or the engine below it, could not do its part.
    Internal { context: String },
    /// The runtime was terminated.
    Terminated { reason: Option<String> },
    /// The runtime did not acknowledge a termination and was abandoned.
    ForceKilled { context: String },
}

pub type RuntimeResult<T> = Result<T, RuntimeError>;

/// The contents of an optional string.
pub open spec fn text_view(text: Option<String>) -> Option<Seq<char>> {
    match text {
        Some(t) => Some(t@),
        None => None,
    }
}

#[verifier::ext_equal]
pub struct FrameView {
    pub function_name: Option<Seq<char>>,
    pub file_name: Option<Seq<char>>,
    pub line_number: Option<i64>,
    pub column_number: Option<i64>,
}

#[verifier::ext_equal]
pub struct DetailsView {
    pub name: Option<Seq<char>>,
    pub message: Option<Seq<char>>,
    pub stack: Option<Seq<char>>,
    pub frames: Seq<FrameView>,
    pub summary: Seq<char>,
}

#[verifier::ext_equal]
pub enum ErrorView {
    JavaScript(DetailsView),
    Timeout(Seq<char>),
    Internal(Seq<char>),
    Terminated(Option<Seq<char>>),
    ForceKilled(Seq<char>),
}

impl View for JsFrameSummary {
    type V = FrameView;

    open spec fn view(&self) -> FrameView {
        FrameView {
            function_name: text_view(self.function_name),
            file_name: text_view(self.file_name),
            line_number: self.line_number,
            column_number: self.column_number,
        }
    }
}

impl View for JsExceptionDetails {
    type V = DetailsView;

    open spec fn view(&self) -> DetailsView {
        DetailsView {
            name: text_view(self.name),
            message: text_view(self.message),
            stack: text_view(self.stack),
            frames: self.frames@.map_values(|frame: JsFrameSummary| frame@),
            summary: self.summary@,
        }
    }
}

impl View for RuntimeError {
    type V = ErrorView;

    open spec fn view(&self) -> ErrorView {
        match *self {
            RuntimeError::JavaScript(details) => ErrorView::JavaScript(details@),
            RuntimeError::Timeout { context } => ErrorView::Timeout(context@),
            RuntimeError::Internal { context } => ErrorView::Internal(context@),
            RuntimeError::Terminated { reason } => ErrorView::Terminated(text_view(reason)),
            RuntimeError::ForceKilled { context } => ErrorView::ForceKilled(context@),
        }
    }
}

fn copy_text(text: &Option<String>) -> (copy: Option<String>)
    ensures
        copy == *text,
{
    match text {
        Some(t) => Some(t.clone()),
        None => None,
    }
}

impl Clone for JsFrameSummary {
    fn clone(&self) -> (copy: Self)
        ensures
            copy == *self,
    {
        JsFrameSummary {
            function_name: copy_text(&self.function_name),
            file_name: copy_text(&self.file_name),
            line_number: self.line_number,
            column_number: self.column_number,
        }
    }
}

impl Clone for JsExceptionDetails {
    fn clone(&self) -> (copy: Self)
        ensures
            copy@ == self@,
    {
        let mut frames: Vec<JsFrameSummary> = Vec::new();
        let mut i: usize = 0;
        while i < self.frames.len()
            invariant
                i <= self.frames@.len(),
                frames@ == self.frames@.take(i as int),
            decreases self.frames@.len() - i,
        {
            frames.push(self.frames[i].clone());
            i = i + 1;
            assert(frames@ =~= self.frames@.take(i as int));
        }
        assert(frames@ =~= self.frames@);
        JsExceptionDetails {
            name: copy_text(&self.name),
            message: copy_text(&self.message),
            stack: copy_text(&self.stack),
            frames,
            summary: self.summary.clone(),
        }
    }
}

impl Clone for RuntimeError {
    fn clone(&self) -> (copy: Self)
        ensures
            copy@ == self@,
    {
        match self {
            RuntimeError::JavaScript(details) => RuntimeError::JavaScript(details.clone()),
            RuntimeError::Timeout { context } => RuntimeError::Timeout { context: context.clone() },
            RuntimeError::Internal { context } => RuntimeError::Internal {
                context: context.clone(),
            },
            RuntimeError::Terminated { reason } => RuntimeError::Terminated {
                reason: copy_text(reason),
            },
            RuntimeError::ForceKilled { context } => RuntimeError::ForceKilled {
                context: context.clone(),
            },
        }
    }
}

/// The outcome of an operation that returns nothing but success or an error.
pub open spec fn unit_view(result: RuntimeResult<()>) -> Result<(), ErrorView> {
    match result {
        Ok(_) => Ok(()),
        Err(err) => Err(err@),
    }
}

/// A result with its error taken by its view.
pub open spec fn err_view<T>(result: RuntimeResult<T>) -> Result<T, ErrorView> {
    match result {
        Ok(value) => Ok(value),
        Err(err) => Err(err@),
    }
}

impl RuntimeError {
    pub fn internal(context: String) -> (err: RuntimeError)
        ensures
            err@ == ErrorView::Internal(context@),
    {
        RuntimeError::Internal { context }
    }

    /// An internal error with a fixed text.
    pub fn internal_text(context: &str) -> (err: RuntimeError)
        ensures
            err@ == ErrorView::Internal(context@),
    {
        RuntimeError::Internal { context: context.to_owned() }
    }

    pub fn timeout(context: String) -> (err: RuntimeError)
        ensures
            err@ == ErrorView::Timeout(context@),
    {
        RuntimeError::Timeout { context }
    }

    pub fn terminated(reason: Option<String>) -> (err: RuntimeError)
        ensures
            err@ == ErrorView::Terminated(text_view(reason)),
    {
        RuntimeError::Terminated { reason }
    }

    pub fn force_killed(context: String) -> (err: RuntimeError)
        ensures
            err@ == ErrorView::ForceKilled(context@),
    {
        RuntimeError::ForceKilled { context }
    }

    pub fn javascript(details: JsExceptionDetails) -> (err: RuntimeError)
        ensures
            err@ == ErrorView::JavaScript(details@),
    {
        RuntimeError::JavaScript(details)
    }
}

/// The engine words an exception this way when it was stopped.
pub open spec fn details_indicate_termination(details: DetailsView) -> bool {
    (details.message is Some && has_substring(details.message->0, "execution terminated"@))
        || has_substring(details.summary, "execution terminated"@)
}

/// The error says that execution was terminated.
pub open spec fn error_indicates_termination(err: ErrorView) -> bool {
    match err {
        ErrorView::JavaScript(details) => details_indicate_termination(details),
        ErrorView::Timeout(context) => has_substring(context, "execution terminated"@),
        ErrorView::Internal(context) => has_substring(context, "execution terminated"@),
        ErrorView::Terminated(_) => true,
        ErrorView::ForceKilled(_) => true,
    }
}

/// Whether an error says that execution was terminated.
pub fn runtime_error_indicates_termination(err: &RuntimeError) -> (yes: bool)
    ensures
        yes == error_indicates_termination(err@),
{
    match err {
        RuntimeError::JavaScript(details) => js_error_indicates_termination(details),
        RuntimeError::Timeout { context } => contains(context, "execution terminated"),
        RuntimeError::Internal { context } => contains(context, "execution terminated"),
        RuntimeError::Terminated { .. } => true,
        RuntimeError::ForceKilled { .. } => true,
    }
}

/// Whether an exception says that execution was terminated.
pub fn js_error_indicates_termination(details: &JsExceptionDetails) -> (yes: bool)
    ensures
        yes == details_indicate_termination(details@),
{
    if let Some(message) = &details.message {
        if contains(message, "execution terminated") {
            return true;
        }
    }
    contains(&details.summary, "execution terminated")
}

/// The exception class that a runtime error is raised as in Python.
#[derive(Clone, Copy, Debug, PartialEq, Eq, Structural)]
pub enum PyExceptionKind {
    JavaScriptError,
    RuntimeTimeout,
    /// The builtin `RuntimeError`.
    Builtin,
    RuntimeTerminated,
    RuntimeForceKilled,
}

/// A message with the context it arose in, unless that is empty.
pub open spec fn prefixed(context: Option<Seq<char>>, message: Seq<char>) -> Seq<char> {
    match context {
        Some(prefix) => if prefix.len() > 0 {
            prefix + ": "@ + message
        } else {
            message
        },
        None => message,
    }
}

fn with_prefix(context: Option<&str>, message: &str) -> (text: String)
    ensures
        text@ == prefixed(
            match context {
                Some(c) => Some(c@),
                None => None,
            },
            message@,
        ),
{
    match context {
        Some(prefix) => if prefix.is_empty() {
            message.to_owned()
        } else {
            join3(prefix, ": ", message)
        },
        None => message.to_owned(),
    }
}

/// The exception class and message that an error is raised with in Python.
pub open spec fn python_exception(err: ErrorView, context: Option<Seq<char>>) -> (
    PyExceptionKind,
    Seq<char>,
) {
    match err {
        ErrorView::JavaScript(details) => (
            PyExceptionKind::JavaScriptError,
            prefixed(context, details.summary),
        ),
        ErrorView::Timeout(text) => (PyExceptionKind::RuntimeTimeout, prefixed(context, text)),
        ErrorView::Internal(text) => (PyExceptionKind::Builtin, prefixed(context, text)),
        ErrorView::Terminated(reason) => (
            PyExceptionKind::RuntimeTerminated,
            prefixed(
                context,
                match reason {
                    Some(text) => if text.len() > 0 {
                        text
                    } else {
                        "Runtime terminated"@
                    },
                    None => "Runtime terminated"@,
                },
            ),
        ),
        ErrorView::ForceKilled(text) => (
            PyExceptionKind::RuntimeForceKilled,
            prefixed(context, text),
        ),
    }
}

/// The exception class and message that an error is raised with in Python,
/// optionally tagged with the context it arose in.
pub fn runtime_error_to_py_with(err: &RuntimeError, context: Option<&str>) -> (r: (
    PyExceptionKind,
    String,
))
    ensures
        (r.0, r.1@) == python_exception(
            err@,
            match context {
                Some(c) => Some(c@),
                None => None,
            },
        ),
{
    match err {
        RuntimeError::JavaScript(details) => (
            PyExceptionKind::JavaScriptError,
            with_prefix(context, &details.summary),
        ),
        RuntimeError::Timeout { context: text } => (
            PyExceptionKind::RuntimeTimeout,
            with_prefix(context, text),
        ),
        RuntimeError::Internal { context: text } => (
            PyExceptionKind::Builtin,
            with_prefix(context, text),
        ),
        RuntimeError::Terminated { reason } => {
            let base: &str = match reason {
                Some(text) => if text.as_str().is_empty() {
                    "Runtime terminated"
                } else {
                    text.as_str()
                },
                None => "Runtime terminated",
            };
            (PyExceptionKind::RuntimeTerminated, with_prefix(context, base))
        },
        RuntimeError::ForceKilled { context: text } => (
            PyExceptionKind::RuntimeForceKilled,
            with_prefix(context, text),
        ),
    }
}

} // verus!
