//! What is reported when the engine, or what it stands on, fails.

use crate::error::{ErrorView, RuntimeError};
use crate::text::{join2, join3};
use vstd::prelude::*;

verus! {

/// An operation that failed.
#[derive(Debug)]
pub enum EngineFailure {
    HelperKey,
    MissingHelper(String),
    HelperNotCallable(String),
    NumberConversion,
    BigIntCast,
    TextConversion,
    FunctionCast,
    ByteArrayCast,
    BufferCast,
    ArrayObjectCast,
    ArrayCast,
    SetObjectCast,
    SetCast,
    DateCast,
    ObjectCast,
    BigIntCreation,
    TextAllocation,
    ByteArrayCreation,
    ArrayElement,
    KeyAllocation(String),
    PropertySetting(String),
    DateCreation,
    PyStreamHelper,
    TargetName,
    PromiseCast,
    PromiseResolver,
    StreamObject,
    InspectorServer(String),
    InspectorRegistration(String),
    SnapshotRuntime(String),
    WatchdogThread(String),
}

/// The text of a failure.
pub open spec fn failure_text(failure: EngineFailure) -> Seq<char> {
    match failure {
        EngineFailure::HelperKey => "Failed to allocate helper key"@,
        EngineFailure::MissingHelper(what) => "Missing "@ + what@ + " helper"@,
        EngineFailure::HelperNotCallable(what) => what@ + " is not callable"@,
        EngineFailure::NumberConversion => "Failed to convert value to number"@,
        EngineFailure::BigIntCast => "Failed to cast to BigInt"@,
        EngineFailure::TextConversion => "Failed to convert string"@,
        EngineFailure::FunctionCast => "Failed to cast to function"@,
        EngineFailure::ByteArrayCast => "Failed to cast to Uint8Array"@,
        EngineFailure::BufferCast => "Failed to cast to ArrayBuffer"@,
        EngineFailure::ArrayObjectCast => "Failed to cast array to object"@,
        EngineFailure::ArrayCast => "Failed to cast to array"@,
        EngineFailure::SetObjectCast => "Failed to cast set to object"@,
        EngineFailure::SetCast => "Failed to cast to Set"@,
        EngineFailure::DateCast => "Failed to cast to Date"@,
        EngineFailure::ObjectCast => "Failed to cast to object"@,
        EngineFailure::BigIntCreation => "Failed to create BigInt"@,
        EngineFailure::TextAllocation => "Failed to allocate string"@,
        EngineFailure::ByteArrayCreation => "Failed to create Uint8Array"@,
        EngineFailure::ArrayElement => "Failed to set array element"@,
        EngineFailure::KeyAllocation(what) => "Failed to allocate key '"@ + what@ + "'"@,
        EngineFailure::PropertySetting(what) => "Failed to set property '"@ + what@ + "'"@,
        EngineFailure::DateCreation => "Failed to create Date"@,
        EngineFailure::PyStreamHelper => "__pydeno_from_py_stream invocation failed"@,
        EngineFailure::TargetName => "Failed to allocate target name"@,
        EngineFailure::PromiseCast => "Failed to cast to Promise"@,
        EngineFailure::PromiseResolver => "Failed to create PromiseResolver"@,
        EngineFailure::StreamObject => "ReadableStream is not an object"@,
        EngineFailure::InspectorServer(what) => "Failed to start inspector server: "@ + what@,
        EngineFailure::InspectorRegistration(what) => "Failed to register inspector: "@ + what@,
        EngineFailure::SnapshotRuntime(what) => "Failed to initialize snapshot runtime: "@ + what@,
        EngineFailure::WatchdogThread(what) => "Failed to spawn watchdog thread: "@ + what@,
    }
}

impl EngineFailure {
    /// The error that a failure is reported as.
    pub fn into_error(self) -> (err: RuntimeError)
        ensures
            err@ == ErrorView::Internal(failure_text(self)),
    {
        match self {
            EngineFailure::HelperKey => RuntimeError::internal_text(
                "Failed to allocate helper key",
            ),
            EngineFailure::MissingHelper(what) => RuntimeError::internal(
                join3("Missing ", &what, " helper"),
            ),
            EngineFailure::HelperNotCallable(what) => RuntimeError::internal(
                join2(&what, " is not callable"),
            ),
            EngineFailure::NumberConversion => RuntimeError::internal_text(
                "Failed to convert value to number",
            ),
            EngineFailure::BigIntCast => RuntimeError::internal_text("Failed to cast to BigInt"),
            EngineFailure::TextConversion => RuntimeError::internal_text(
                "Failed to convert string",
            ),
            EngineFailure::FunctionCast => RuntimeError::internal_text(
                "Failed to cast to function",
            ),
            EngineFailure::ByteArrayCast => RuntimeError::internal_text(
                "Failed to cast to Uint8Array",
            ),
            EngineFailure::BufferCast => RuntimeError::internal_text(
                "Failed to cast to ArrayBuffer",
            ),
            EngineFailure::ArrayObjectCast => RuntimeError::internal_text(
                "Failed to cast array to object",
            ),
            EngineFailure::ArrayCast => RuntimeError::internal_text("Failed to cast to array"),
            EngineFailure::SetObjectCast => RuntimeError::internal_text(
                "Failed to cast set to object",
            ),
            EngineFailure::SetCast => RuntimeError::internal_text("Failed to cast to Set"),
            EngineFailure::DateCast => RuntimeError::internal_text("Failed to cast to Date"),
            EngineFailure::ObjectCast => RuntimeError::internal_text("Failed to cast to object"),
            EngineFailure::BigIntCreation => RuntimeError::internal_text(
                "Failed to create BigInt",
            ),
            EngineFailure::TextAllocation => RuntimeError::internal_text(
                "Failed to allocate string",
            ),
            EngineFailure::ByteArrayCreation => RuntimeError::internal_text(
                "Failed to create Uint8Array",
            ),
            EngineFailure::ArrayElement => RuntimeError::internal_text(
                "Failed to set array element",
            ),
            EngineFailure::KeyAllocation(what) => RuntimeError::internal(
                join3("Failed to allocate key '", &what, "'"),
            ),
            EngineFailure::PropertySetting(what) => RuntimeError::internal(
                join3("Failed to set property '", &what, "'"),
            ),
            EngineFailure::DateCreation => RuntimeError::internal_text("Failed to create Date"),
            EngineFailure::PyStreamHelper => RuntimeError::internal_text(
                "__pydeno_from_py_stream invocation failed",
            ),
            EngineFailure::TargetName => RuntimeError::internal_text(
                "Failed to allocate target name",
            ),
            EngineFailure::PromiseCast => RuntimeError::internal_text("Failed to cast to Promise"),
            EngineFailure::PromiseResolver => RuntimeError::internal_text(
                "Failed to create PromiseResolver",
            ),
            EngineFailure::StreamObject => RuntimeError::internal_text(
                "ReadableStream is not an object",
            ),
            EngineFailure::InspectorServer(what) => RuntimeError::internal(
                join2("Failed to start inspector server: ", &what),
            ),
            EngineFailure::InspectorRegistration(what) => RuntimeError::internal(
                join2("Failed to register inspector: ", &what),
            ),
            EngineFailure::SnapshotRuntime(what) => RuntimeError::internal(
                join2("Failed to initialize snapshot runtime: ", &what),
            ),
            EngineFailure::WatchdogThread(what) => RuntimeError::internal(
                join2("Failed to spawn watchdog thread: ", &what),
            ),
        }
    }
}

} // verus!
