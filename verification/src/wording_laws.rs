//! What the texts of failures say.

use crate::engine::{failure_text, EngineFailure};
use crate::jobs::{
    expiry_reason, expiry_text, wording_context, wording_error, wording_reason, JobCommon,
    TimeoutWording,
};
use crate::limits::{
    byte_limit_text, depth_limit_text, headroom_text, profile_ceiling, profile_label,
};
use crate::proxies::proxy_text;
use crate::stream::{
    chunk_fault_text, method_failure_text, ChunkFault, MethodFailure, StreamMethod,
};
use crate::stream_laws::ends_with;
use crate::text::{byte_len, decimal, has_prefix, has_substring, occurs_at};
use crate::v8_export::{missing_argument_text, missing_function_text};
use crate::wire::{fault_text, WireFault};
use vstd::prelude::*;

verus! {

/// The kinds of failures, told apart by a number.
pub open spec fn failure_kind(failure: EngineFailure) -> int {
    match failure {
        EngineFailure::HelperKey => 0,
        EngineFailure::NumberConversion => 1,
        EngineFailure::BigIntCast => 2,
        EngineFailure::TextConversion => 3,
        EngineFailure::FunctionCast => 4,
        EngineFailure::ByteArrayCast => 5,
        EngineFailure::BufferCast => 6,
        EngineFailure::ArrayObjectCast => 7,
        EngineFailure::ArrayCast => 8,
        EngineFailure::SetObjectCast => 9,
        EngineFailure::SetCast => 10,
        EngineFailure::DateCast => 11,
        EngineFailure::ObjectCast => 12,
        EngineFailure::BigIntCreation => 13,
        EngineFailure::TextAllocation => 14,
        EngineFailure::ByteArrayCreation => 15,
        EngineFailure::ArrayElement => 16,
        EngineFailure::DateCreation => 17,
        EngineFailure::PyStreamHelper => 18,
        EngineFailure::TargetName => 19,
        EngineFailure::PromiseCast => 20,
        EngineFailure::PromiseResolver => 21,
        EngineFailure::StreamObject => 22,
        EngineFailure::MissingHelper(_) => 23,
        EngineFailure::HelperNotCallable(_) => 24,
        EngineFailure::KeyAllocation(_) => 25,
        EngineFailure::PropertySetting(_) => 26,
        EngineFailure::InspectorServer(_) => 27,
        EngineFailure::InspectorRegistration(_) => 28,
        EngineFailure::SnapshotRuntime(_) => 29,
        EngineFailure::WatchdogThread(_) => 30,
    }
}

/// What a failure names, if anything.
pub open spec fn failure_names(failure: EngineFailure) -> Option<Seq<char>> {
    match failure {
        EngineFailure::MissingHelper(what) => Some(what@),
        EngineFailure::HelperNotCallable(what) => Some(what@),
        EngineFailure::KeyAllocation(what) => Some(what@),
        EngineFailure::PropertySetting(what) => Some(what@),
        EngineFailure::InspectorServer(what) => Some(what@),
        EngineFailure::InspectorRegistration(what) => Some(what@),
        EngineFailure::SnapshotRuntime(what) => Some(what@),
        EngineFailure::WatchdogThread(what) => Some(what@),
        _ => None,
    }
}

/// A failure of the engine that names nothing says so in words of its own; one that names
/// something says its name.
pub proof fn law_engine_failures_are_told_apart(failure: EngineFailure, other: EngineFailure)
    ensures
        failure_names(failure) is None && failure_names(other) is None && failure_text(failure)
            == failure_text(other) ==> failure_kind(failure) == failure_kind(other),
        failure_names(failure) is Some ==> has_substring(
            failure_text(failure),
            failure_names(failure)->0,
        ),
{
    lemma_named(failure);
    lemma_fixed(failure, other);
}

proof fn lemma_named(failure: EngineFailure)
    ensures
        failure_names(failure) is Some ==> has_substring(
            failure_text(failure),
            failure_names(failure)->0,
        ),
{
    let text = failure_text(failure);
    match failure {
        EngineFailure::MissingHelper(what) => {
            let at = "Missing "@.len() as int;
            assert(text.subrange(at, at + what@.len()) =~= what@);
            assert(occurs_at(text, what@, at));
        },
        EngineFailure::HelperNotCallable(what) => {
            let at = 0;
            assert(text.subrange(at, at + what@.len()) =~= what@);
            assert(occurs_at(text, what@, at));
        },
        EngineFailure::KeyAllocation(what) => {
            let at = "Failed to allocate key '"@.len() as int;
            assert(text.subrange(at, at + what@.len()) =~= what@);
            assert(occurs_at(text, what@, at));
        },
        EngineFailure::PropertySetting(what) => {
            let at = "Failed to set property '"@.len() as int;
            assert(text.subrange(at, at + what@.len()) =~= what@);
            assert(occurs_at(text, what@, at));
        },
        EngineFailure::InspectorServer(what) => {
            let at = "Failed to start inspector server: "@.len() as int;
            assert(text.subrange(at, at + what@.len()) =~= what@);
            assert(occurs_at(text, what@, at));
        },
        EngineFailure::InspectorRegistration(what) => {
            let at = "Failed to register inspector: "@.len() as int;
            assert(text.subrange(at, at + what@.len()) =~= what@);
            assert(occurs_at(text, what@, at));
        },
        EngineFailure::SnapshotRuntime(what) => {
            let at = "Failed to initialize snapshot runtime: "@.len() as int;
            assert(text.subrange(at, at + what@.len()) =~= what@);
            assert(occurs_at(text, what@, at));
        },
        EngineFailure::WatchdogThread(what) => {
            let at = "Failed to spawn watchdog thread: "@.len() as int;
            assert(text.subrange(at, at + what@.len()) =~= what@);
            assert(occurs_at(text, what@, at));
        },
        _ => {},
    }
}

proof fn lemma_fixed(failure: EngineFailure, other: EngineFailure)
    ensures
        failure_names(failure) is None && failure_names(other) is None && failure_text(failure)
            == failure_text(other) ==> failure_kind(failure) == failure_kind(other),
{
    reveal_strlit("Failed to allocate helper key");
    reveal_strlit("Failed to convert value to number");
    reveal_strlit("Failed to cast to BigInt");
    reveal_strlit("Failed to convert string");
    reveal_strlit("Failed to cast to function");
    reveal_strlit("Failed to cast to Uint8Array");
    reveal_strlit("Failed to cast to ArrayBuffer");
    reveal_strlit("Failed to cast array to object");
    reveal_strlit("Failed to cast to array");
    reveal_strlit("Failed to cast set to object");
    reveal_strlit("Failed to cast to Set");
    reveal_strlit("Failed to cast to Date");
    reveal_strlit("Failed to cast to object");
    reveal_strlit("Failed to create BigInt");
    reveal_strlit("Failed to allocate string");
    reveal_strlit("Failed to create Uint8Array");
    reveal_strlit("Failed to set array element");
    reveal_strlit("Failed to create Date");
    reveal_strlit("__pydeno_from_py_stream invocation failed");
    reveal_strlit("Failed to allocate target name");
    reveal_strlit("Failed to cast to Promise");
    reveal_strlit("Failed to create PromiseResolver");
    reveal_strlit("ReadableStream is not an object");
    assert("Failed to allocate helper key"@.len() == 29);
    assert("Failed to convert value to number"@.len() == 33);
    assert("Failed to cast to BigInt"@.len() == 24);
    assert("Failed to convert string"@.len() == 24);
    assert("Failed to cast to function"@.len() == 26);
    assert("Failed to cast to Uint8Array"@.len() == 28);
    assert("Failed to cast to ArrayBuffer"@.len() == 29);
    assert("Failed to cast array to object"@.len() == 30);
    assert("Failed to cast to array"@.len() == 23);
    assert("Failed to cast set to object"@.len() == 28);
    assert("Failed to cast to Set"@.len() == 21);
    assert("Failed to cast to Date"@.len() == 22);
    assert("Failed to cast to object"@.len() == 24);
    assert("Failed to create BigInt"@.len() == 23);
    assert("Failed to allocate string"@.len() == 25);
    assert("Failed to create Uint8Array"@.len() == 27);
    assert("Failed to set array element"@.len() == 27);
    assert("Failed to create Date"@.len() == 21);
    assert("__pydeno_from_py_stream invocation failed"@.len() == 41);
    assert("Failed to allocate target name"@.len() == 30);
    assert("Failed to cast to Promise"@.len() == 25);
    assert("Failed to create PromiseResolver"@.len() == 32);
    assert("ReadableStream is not an object"@.len() == 31);
    assert("Failed to allocate helper key"@[10] != "Failed to cast to ArrayBuffer"@[10]);
    assert("Failed to cast to BigInt"@[11] != "Failed to convert string"@[11]);
    assert("Failed to cast to BigInt"@[18] != "Failed to cast to object"@[18]);
    assert("Failed to convert string"@[11] != "Failed to cast to object"@[11]);
    assert("Failed to cast to Uint8Array"@[15] != "Failed to cast set to object"@[15]);
    assert("Failed to cast array to object"@[10] != "Failed to allocate target name"@[10]);
    assert("Failed to cast to array"@[11] != "Failed to create BigInt"@[11]);
    assert("Failed to cast to Set"@[11] != "Failed to create Date"@[11]);
    assert("Failed to allocate string"@[10] != "Failed to cast to Promise"@[10]);
    assert("Failed to create Uint8Array"@[10] != "Failed to set array element"@[10]);
}

/// A method of a stream that failed is named, and so is how far it got.
pub proof fn law_method_failures_are_told_apart(
    method: StreamMethod,
    failure: MethodFailure,
    other_method: StreamMethod,
    other: MethodFailure,
)
    ensures
        method_failure_text(method, failure) == method_failure_text(other_method, other) ==> method
            == other_method && failure == other,
{
    reveal_strlit("Failed to allocate getReader string");
    reveal_strlit("ReadableStream.getReader missing");
    reveal_strlit("getReader is not a function");
    reveal_strlit("getReader threw");
    reveal_strlit("getReader did not return object");
    reveal_strlit("Failed to allocate read key");
    reveal_strlit("Reader.read missing");
    reveal_strlit("Reader.read is not callable");
    reveal_strlit("Reader.read threw");
    reveal_strlit("Reader.read must return a promise");
    assert("Failed to allocate getReader string"@.len() == 35);
    assert("ReadableStream.getReader missing"@.len() == 32);
    assert("getReader is not a function"@.len() == 27);
    assert("getReader threw"@.len() == 15);
    assert("getReader did not return object"@.len() == 31);
    assert("Failed to allocate read key"@.len() == 27);
    assert("Reader.read missing"@.len() == 19);
    assert("Reader.read is not callable"@.len() == 27);
    assert("Reader.read threw"@.len() == 17);
    assert("Reader.read must return a promise"@.len() == 33);
    assert("getReader is not a function"@[0] != "Failed to allocate read key"@[0]);
    assert("getReader is not a function"@[0] != "Reader.read is not callable"@[0]);
    assert("Failed to allocate read key"@[0] != "Reader.read is not callable"@[0]);
}

/// What timed out is named in words of its own, to the caller, in the reason and where a
/// watchdog fired.
pub proof fn law_timeouts_are_told_apart(wording: TimeoutWording, other: TimeoutWording)
    ensures
        wording_context(wording) == wording_context(other) ==> wording == other,
        wording_error(wording) == wording_error(other) ==> wording == other,
        wording_reason(wording) == wording_reason(other) ==> wording == other,
{
    reveal_strlit("");
    reveal_strlit("Evaluation");
    reveal_strlit("Stream read");
    reveal_strlit("Function call");
    reveal_strlit("Async evaluation");
    reveal_strlit("Module evaluation");
    reveal_strlit("Async function call");
    reveal_strlit("Async module evaluation");
    reveal_strlit("Asynchronous evaluation");
    reveal_strlit("Asynchronous function call");
    reveal_strlit("Asynchronous module evaluation");
    assert(""@.len() == 0);
    assert("Evaluation"@.len() == 10);
    assert("Stream read"@.len() == 11);
    assert("Function call"@.len() == 13);
    assert("Async evaluation"@.len() == 16);
    assert("Module evaluation"@.len() == 17);
    assert("Async function call"@.len() == 19);
    assert("Async module evaluation"@.len() == 23);
    assert("Asynchronous evaluation"@.len() == 23);
    assert("Asynchronous function call"@.len() == 26);
    assert("Asynchronous module evaluation"@.len() == 30);
    assert("Async module evaluation"@[5] != "Asynchronous evaluation"@[5]);
}

/// A job that was late says what timed out, and after how many milliseconds.
pub proof fn law_late_jobs_say_how_long_they_had(common: JobCommon, ms: u64)
    requires
        common.timeout_ms == Some(ms),
    ensures
        has_prefix(expiry_text(common), wording_error(common.wording)),
        has_substring(expiry_text(common), " timed out after "@ + decimal(ms as nat) + "ms"@),
        has_prefix(expiry_reason(common), wording_reason(common.wording)),
        ends_with(expiry_reason(common), " timed out after "@ + decimal(ms as nat) + "ms"@),
{
    let span = " timed out after "@ + decimal(ms as nat) + "ms"@;
    let text = expiry_text(common);
    let start = wording_error(common.wording);
    assert(text.subrange(0, start.len() as int) =~= start);
    assert(text.subrange(start.len() as int, start.len() + span.len() as int) =~= span);
    assert(occurs_at(text, span, start.len() as int));
    let reason = expiry_reason(common);
    let head = wording_reason(common.wording);
    assert(reason.subrange(0, head.len() as int) =~= head);
    assert(reason.subrange(reason.len() - span.len(), reason.len() as int) =~= span);
}

/// A refusal for a limit names the limit; for the size, also how much there was; for the
/// stack, the depth and the bytes in use.
pub proof fn law_refusals_name_their_limit(
    max_depth: nat,
    bytes: nat,
    max_bytes: nat,
    depth: nat,
    used: nat,
    optimized: bool,
)
    ensures
        has_prefix(
            depth_limit_text(max_depth),
            "Serialization depth exceeded the configured limit of "@ + decimal(max_depth),
        ),
        has_prefix(
            byte_limit_text(bytes, max_bytes),
            "Serialization size ("@ + decimal(bytes)
                + " bytes) exceeded the configured limit of "@ + decimal(max_bytes),
        ),
        has_prefix(
            headroom_text(depth, used, optimized),
            "stack headroom exhausted at depth "@ + decimal(depth) + ": "@ + decimal(used),
        ),
        profile_label(true) != profile_label(false),
        profile_ceiling(true) != profile_ceiling(false),
{
    let a = "Serialization depth exceeded the configured limit of "@ + decimal(max_depth);
    assert(depth_limit_text(max_depth).subrange(0, a.len() as int) =~= a);
    let b = "Serialization size ("@ + decimal(bytes) + " bytes) exceeded the configured limit of "@
        + decimal(max_bytes);
    assert(byte_limit_text(bytes, max_bytes).subrange(0, b.len() as int) =~= b);
    let c = "stack headroom exhausted at depth "@ + decimal(depth) + ": "@ + decimal(used);
    assert(headroom_text(depth, used, optimized).subrange(0, c.len() as int) =~= c);
    reveal_strlit("optimized");
    reveal_strlit("unoptimized (debug_assertions on)");
    reveal_strlit("around depth 743 -- far past the default `max_serialization_depth` of 100");
    reveal_strlit("around depth 22 -- below the default `max_serialization_depth` of 100");
    assert("optimized"@.len() != "unoptimized (debug_assertions on)"@.len());
    assert("around depth 743 -- far past the default `max_serialization_depth` of 100"@.len()
        != "around depth 22 -- below the default `max_serialization_depth` of 100"@.len());
}

/// A proxy is shown with its name, and with its id for as long as it is open.
pub proof fn law_proxies_are_shown(name: Seq<char>, id: u32)
    ensures
        has_prefix(proxy_text(name, false, id), "<"@ + name),
        ends_with(proxy_text(name, false, id), decimal(id as nat) + ">"@),
        has_prefix(proxy_text(name, true, id), "<"@ + name),
        ends_with(proxy_text(name, true, id), " (closed)>"@),
{
    let open = proxy_text(name, false, id);
    let closed = proxy_text(name, true, id);
    let start = "<"@ + name;
    assert(open.subrange(0, start.len() as int) =~= start);
    assert(closed.subrange(0, start.len() as int) =~= start);
    let end = decimal(id as nat) + ">"@;
    assert(open.subrange(open.len() - end.len(), open.len() as int) =~= end);
    let tail = " (closed)>"@;
    assert(closed.subrange(closed.len() - tail.len(), closed.len() as int) =~= tail);
}

/// A fault in a chunk, or on the wire, shows the payload that it is about; a function
/// that is not there, or cannot be written, is named by its id.
pub proof fn law_faults_show_their_payload(
    chunk: ChunkFault,
    fault: WireFault,
    shown: Seq<char>,
    id: u32,
)
    ensures
        !(chunk is MissingDoneField) ==> ends_with(chunk_fault_text(chunk, shown), shown),
        fault is BigIntPayload || fault is StreamId ==> ends_with(fault_text(fault, shown), shown),
        has_substring(fault_text(WireFault::Function(id), shown), decimal(id as nat)),
        has_substring(fault_text(WireFault::BigIntLiteral(shown), shown), shown),
        has_substring(missing_function_text(id), decimal(id as nat)),
        has_substring(missing_argument_text(id), decimal(id as nat)),
{
    let text = chunk_fault_text(chunk, shown);
    if !(chunk is MissingDoneField) {
        assert(text.subrange(text.len() - shown.len(), text.len() as int) =~= shown);
    }
    let wire = fault_text(fault, shown);
    if fault is BigIntPayload || fault is StreamId {
        assert(wire.subrange(wire.len() - shown.len(), wire.len() as int) =~= shown);
    }
    let digits = decimal(id as nat);
    let function = fault_text(WireFault::Function(id), shown);
    let a = "Cannot serialize JSValue::Function (id: "@.len() as int;
    assert(function.subrange(a, a + digits.len()) =~= digits);
    assert(occurs_at(function, digits, a));
    let literal = fault_text(WireFault::BigIntLiteral(shown), shown);
    let b = "Invalid BigInt literal '"@.len() as int;
    assert(literal.subrange(b, b + shown.len()) =~= shown);
    assert(occurs_at(literal, shown, b));
    let c = "Function ID "@.len() as int;
    assert(missing_function_text(id).subrange(c, c + digits.len()) =~= digits);
    assert(occurs_at(missing_function_text(id), digits, c));
    assert(missing_argument_text(id).subrange(c, c + digits.len()) =~= digits);
    assert(occurs_at(missing_argument_text(id), digits, c));
}

/// A text begins with another exactly if it is the other and a rest; the other occurs in it
/// exactly if it is something, the other and a rest.
pub proof fn law_parts_of_texts_are_found(text: Seq<char>, part: Seq<char>, start: Seq<char>)
    ensures
        has_prefix(part + text, part),
        has_substring(start + part + text, part),
        has_prefix(text, part) ==> text == part + text.skip(part.len() as int),
        has_substring(text, part) ==> exists|at: int|
            0 <= at <= text.len() - part.len() && #[trigger] text.subrange(
                at,
                at + part.len(),
            ) == part,
        text.len() < part.len() ==> !has_prefix(text, part) && !has_substring(text, part),
{
    assert((part + text).subrange(0, part.len() as int) =~= part);
    let whole = start + part + text;
    assert(whole.subrange(start.len() as int, start.len() + part.len() as int) =~= part);
    assert(occurs_at(whole, part, start.len() as int));
    if has_prefix(text, part) {
        assert(text =~= text.subrange(0, part.len() as int) + text.skip(part.len() as int));
    }
    if has_substring(text, part) {
        let at = choose|at: int| occurs_at(text, part, at);
        assert(text.subrange(at, at + part.len()) == part);
    }
}

/// A text takes one to four bytes for each of its characters: one below 0x80, two below
/// 0x800, three below 0x10000 and four from there on.
pub proof fn law_characters_take_one_to_four_bytes(c: char, text: Seq<char>)
    ensures
        byte_len(Seq::<char>::empty()) == 0,
        byte_len(seq![c] + text) == byte_len(text) + (if (c as u32) < 0x80 {
            1nat
        } else if (c as u32) < 0x800 {
            2nat
        } else if (c as u32) < 0x10000 {
            3nat
        } else {
            4nat
        }),
{
    let more = seq![c] + text;
    assert(more.drop_first() =~= text);
    assert(more[0] == c);
}

/// A number is written in decimal digits, the last of which is its remainder by ten.
pub proof fn law_numbers_are_written_in_digits(n: nat)
    ensures
        decimal(n).len() > 0,
        decimal(n).last() as int == '0' as int + n % 10,
        n >= 10 ==> decimal(n).drop_last() == decimal(n / 10),
        n < 10 ==> decimal(n).len() == 1,
{
    if n >= 10 {
        assert(decimal(n).drop_last() =~= decimal(n / 10));
    }
}

} // verus!
