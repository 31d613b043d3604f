//! What guest code reaches of the host, and how it gets there.

use crate::bigint::le_value;
use crate::binding::{
    assignment, bind_result, bound_tokens, mode_name, BindOutcome, PropertyView,
};
use crate::config::RuntimeConfig;
use crate::double::{lemma_small_integers_are_exact, nearest_bits, signed_bits, Double};
use crate::error::ErrorView;
use crate::js_value::{distinct_keys, lemma_position_is, lookup, JsView};
use crate::limits::SerializationLimits;
use crate::number_laws::law_counts_lie_within_their_span;
use crate::ops::{
    call_budget, first_word, host_error_text, is_token, js_token, looked_up, token_bits, OpsView,
    PythonOpEntry, PythonOpMode,
};
use crate::runtime::{
    binding_script, context_text, mode_for, op_next, CallContext, OpBinding, OpOutcome, OpStage,
    OpStep,
};
use crate::snapshot::{first_scripts, SnapshotBuilderConfig, SNAPSHOT_DISABLE_CONSOLE_JS};
use crate::startup::{
    console_captured, scripts_made, startup_order, ScriptView, CONSOLE_CAPTURE_HEAD_JS,
    CONSOLE_CAPTURE_MIDDLE_JS, CONSOLE_CAPTURE_TAIL_JS, DISABLE_CONSOLE_JS,
};
use crate::stream_laws::ends_with;
use crate::text::{decimal, has_prefix};
use vstd::prelude::*;

verus! {

/// The number that a token is handed to guest code as.
pub open spec fn number_of(token: u64) -> Double {
    Double { bits: nearest_bits(token as nat) as u64 }
}

/// A token that guest code was handed as a number is the same token when it comes back.
pub proof fn law_tokens_come_back(token: u64)
    requires
        is_token(token),
    ensures
        js_token(number_of(token)) == Some(token),
{
    lemma_small_integers_are_exact(token as int);
    assert(signed_bits(token as int) == nearest_bits(token as nat));
    let d = number_of(token);
    d.lemma_whole_not_negative();
    law_counts_lie_within_their_span(d);
    if d.sign() {
        assert(d.trunc() == -d.whole());
    }
}

/// A number is taken for a token only if it is an integer within the range of tokens,
/// and only for that token.
pub proof fn law_only_tokens_are_taken(raw: Double)
    ensures
        js_token(raw) is Some ==> raw.finite() && raw.integral() && raw.trunc() == js_token(raw)->0
            && 1 <= js_token(raw)->0 < 0x20_0000_0000_0000,
        raw.finite() && raw.integral() && 1 <= raw.trunc() < 0x20_0000_0000_0000 ==> js_token(raw)
            is Some,
{
    raw.lemma_whole_not_negative();
}

/// A call with a token of an op that is registered and exposed reaches its handler, in
/// the op's own mode and in no other. Before it is exposed, and once it is revoked, no
/// call reaches it.
pub proof fn law_calls_reach_their_op(registry: OpsView, entry: PythonOpEntry, mode: PythonOpMode)
    requires
        is_token(entry.id),
        !registry.exposed.contains(entry.id),
    ensures
        ({
            let raw = number_of(entry.id);
            let exposed = registry.registered(entry).exposing(entry.id);
            &&& looked_up(exposed, raw, entry.mode) == Ok::<_, Seq<char>>(entry)
            &&& mode != entry.mode ==> looked_up(exposed, raw, mode) is Err
            &&& looked_up(registry.registered(entry), raw, mode) is Err
            &&& looked_up(exposed.revoked(entry.id), raw, mode) is Err
        }),
{
    law_tokens_come_back(entry.id);
}

/// A token is made of the low random bits, all of them, and is within the range of
/// tokens unless they are all zero.
pub proof fn law_tokens_are_made_of_random_bits(raw: u64)
    ensures
        token_bits(raw) < 0x20_0000_0000_0000,
        (raw - token_bits(raw)) % 0x20_0000_0000_0000 == 0,
        token_bits(raw) != 0 ==> is_token(token_bits(raw)),
{
}

/// The random bits are the first eight bytes, the lowest first.
pub proof fn law_random_bits_are_the_first_bytes(bytes: Seq<u8>)
    requires
        bytes.len() >= 8,
    ensures
        first_word(bytes) == le_value(bytes.take(8)),
{
    reveal_with_fuel(le_value, 9);
    let b = bytes.take(8);
    assert(b.drop_first().len() == 7);
    assert(b.drop_first().drop_first().len() == 6);
}

/// Every call starts a count of its own, against the limits that were configured.
pub proof fn law_calls_start_from_nothing(limits: SerializationLimits, optimized: bool)
    ensures
        call_budget(limits, optimized).depth == 0,
        call_budget(limits, optimized).bytes == 0,
        call_budget(limits, optimized).max_depth == limits.max_depth,
        call_budget(limits, optimized).max_bytes == limits.max_bytes,
        call_budget(limits, optimized).optimized == optimized,
        call_budget(limits, optimized).stack is None,
        call_budget(limits, optimized).ahead.len() == 0,
{
}

/// An exception of a host callback is told to the guest with its class, behind a mark,
/// and with its message last.
pub proof fn law_host_errors_keep_class_and_message(
    class: Option<Seq<char>>,
    message: Seq<char>,
)
    ensures
        host_error_text(class, message)[0] == '\u{1}',
        class is Some ==> has_prefix(host_error_text(class, message).skip(1), class->0),
        ends_with(host_error_text(class, message), message),
{
    let name = match class {
        Some(name) => name,
        None => "Error"@,
    };
    let text = host_error_text(class, message);
    assert(text.skip(1).subrange(0, name.len() as int) =~= name);
    assert(text.subrange(text.len() - message.len(), text.len() as int) =~= message);
}

/// The names that an assignment is told by.
proof fn lemma_names()
    ensures
        "key"@ != "kind"@,
        "key"@ != "value"@,
        "key"@ != "op_id"@,
        "key"@ != "mode"@,
        "kind"@ != "value"@,
        "kind"@ != "op_id"@,
        "kind"@ != "mode"@,
        "op_id"@ != "mode"@,
        "sync"@ != "async"@,
        "op"@ != "value"@,
{
    reveal_strlit("key");
    reveal_strlit("kind");
    reveal_strlit("value");
    reveal_strlit("op_id");
    reveal_strlit("mode");
    reveal_strlit("sync");
    reveal_strlit("async");
    reveal_strlit("op");
    assert("key"@.len() == 3);
    assert("kind"@.len() == 4);
    assert("value"@.len() == 5);
    assert("op_id"@.len() == 5);
    assert("mode"@.len() == 4);
    assert("sync"@.len() == 4);
    assert("async"@.len() == 5);
    assert("op"@.len() == 2);
    assert("kind"@[0] != "mode"@[0]);
}

/// The bridge is told the key of every property; of a value, the value itself; of an op,
/// its token and its mode.
pub proof fn law_assignments_tell_their_property(property: PropertyView)
    ensures
        assignment(property) is Object,
        ({
            let entries = assignment(property)->Object_0;
            match property {
                PropertyView::Value(key, value) => {
                    &&& lookup(entries, "key"@) == Some(JsView::String(key))
                    &&& lookup(entries, "kind"@) == Some(JsView::String("value"@))
                    &&& lookup(entries, "value"@) == Some(value)
                },
                PropertyView::Op(key, op_id, mode) => {
                    &&& lookup(entries, "key"@) == Some(JsView::String(key))
                    &&& lookup(entries, "kind"@) == Some(JsView::String("op"@))
                    &&& lookup(entries, "op_id"@) is Some
                    &&& lookup(entries, "op_id"@)->0 is Float
                    &&& is_token(op_id) ==> js_token(
                        Double { bits: lookup(entries, "op_id"@)->0->Float_0 },
                    ) == Some(op_id)
                    &&& lookup(entries, "mode"@) == Some(
                        JsView::String(
                            if mode == PythonOpMode::Async {
                                "async"@
                            } else {
                                "sync"@
                            },
                        ),
                    )
                },
            }
        }),
{
    lemma_names();
    let entries = assignment(property)->Object_0;
    match property {
        PropertyView::Value(key, value) => {
            assert(distinct_keys(entries));
            lemma_position_is(entries, "key"@, 0);
            lemma_position_is(entries, "kind"@, 1);
            lemma_position_is(entries, "value"@, 2);
        },
        PropertyView::Op(key, op_id, mode) => {
            assert(distinct_keys(entries));
            lemma_position_is(entries, "key"@, 0);
            lemma_position_is(entries, "kind"@, 1);
            lemma_position_is(entries, "op_id"@, 2);
            lemma_position_is(entries, "mode"@, 3);
            if is_token(op_id) {
                law_tokens_come_back(op_id);
            }
        },
    }
}

/// The tokens of a binding are those of its ops, each of them and no others.
pub proof fn law_bound_tokens_are_those_of_the_ops(properties: Seq<PropertyView>, id: u64)
    ensures
        bound_tokens(properties).contains(id) <==> exists|i: int|
            0 <= i < properties.len() && (#[trigger] properties[i]) is Op && properties[i]->Op_1
                == id,
    decreases properties.len(),
{
    if properties.len() > 0 {
        let rest = properties.drop_last();
        let last = properties.last();
        law_bound_tokens_are_those_of_the_ops(rest, id);
        let before = bound_tokens(rest);
        let tokens = bound_tokens(properties);
        if tokens.contains(id) {
            let k = choose|k: int| 0 <= k < tokens.len() && tokens[k] == id;
            if k < before.len() {
                assert(before[k] == id);
                let i = choose|i: int|
                    0 <= i < rest.len() && (#[trigger] rest[i]) is Op && rest[i]->Op_1 == id;
                assert(properties[i] is Op && properties[i]->Op_1 == id);
            } else {
                assert(properties[properties.len() - 1] is Op);
            }
        }
        if exists|i: int|
            0 <= i < properties.len() && (#[trigger] properties[i]) is Op && properties[i]->Op_1
                == id {
            let i = choose|i: int|
                0 <= i < properties.len() && (#[trigger] properties[i]) is Op
                    && properties[i]->Op_1 == id;
            if i < rest.len() {
                assert(rest[i] is Op && rest[i]->Op_1 == id);
                let k = choose|k: int| 0 <= k < before.len() && before[k] == id;
                assert(tokens[k] == id);
            } else {
                assert(tokens[tokens.len() - 1] == id);
            }
        }
    }
}

/// A binding succeeds exactly if it was installed; otherwise the caller is told what was
/// thrown, or why the bridge could not be asked.
pub proof fn law_bindings_tell_how_they_ended(outcome: BindOutcome)
    ensures
        bind_result(outcome) is Ok <==> outcome is Installed,
        outcome is Threw ==> bind_result(outcome) == Err::<(), _>(
            ErrorView::JavaScript(outcome->Threw_0@),
        ),
        outcome is NotAsked ==> bind_result(outcome) == Err::<(), _>(outcome->NotAsked_0@),
        outcome is NoException ==> bind_result(outcome) is Err && bind_result(outcome)->Err_0
            is Internal,
{
}

/// An op is registered in the mode that its handler has: the one that was asked for, and
/// an error where they differ.
pub proof fn law_modes_are_those_of_the_handler(asked: Seq<char>, detected: PythonOpMode)
    ensures
        mode_for(asked, detected) is Ok <==> asked == mode_name(detected),
        mode_for(asked, detected) is Ok ==> mode_for(asked, detected)->Ok_0 == detected,
        mode_name(PythonOpMode::Sync) == "sync"@,
        mode_name(PythonOpMode::Async) == "async"@,
{
    lemma_names();
}

/// The script that installs an op under a name assigns to that name a call of the
/// dispatcher of the op's mode with the op's token.
pub proof fn law_installing_scripts_call_the_op(name: Seq<char>, mode: PythonOpMode, op_id: u64)
    ensures
        has_prefix(binding_script(name, mode, op_id), "globalThis."@ + name),
        mode == PythonOpMode::Sync ==> ends_with(
            binding_script(name, mode, op_id),
            "__host_op_sync__"@ + "("@ + decimal(op_id as nat) + ", ...args); void 0;"@,
        ),
        mode == PythonOpMode::Async ==> ends_with(
            binding_script(name, mode, op_id),
            "__host_op_async__"@ + "("@ + decimal(op_id as nat) + ", ...args); void 0;"@,
        ),
{
    let text = binding_script(name, mode, op_id);
    let start = "globalThis."@ + name;
    assert(text.subrange(0, start.len() as int) =~= start);
    let dispatcher = match mode {
        PythonOpMode::Sync => "__host_op_sync__"@,
        PythonOpMode::Async => "__host_op_async__"@,
    };
    let end = dispatcher + "("@ + decimal(op_id as nat) + ", ...args); void 0;"@;
    assert(text.subrange(text.len() - end.len(), text.len() as int) =~= end);
}

/// An op goes from its registration to its exposure under one token: through the script
/// that installs it where it has a name, at once where its token is handed out. The
/// caller is told the token once it is exposed, and not before.
pub proof fn law_ops_go_from_registration_to_exposure(
    binding: OpBinding,
    outcome: OpOutcome,
    stage: OpStage,
    step: OpStep,
)
    requires
        op_next(binding, outcome, stage, step),
    ensures
        outcome is Failed ==> step is Failed && stage == OpStage::Ended,
        binding.stage == OpStage::Ended ==> step is Failed,
        binding.stage == OpStage::Registering && outcome is Registered && binding.target is Token
            ==> step is Expose && step->Expose_op_id == outcome->Registered_0 && stage is Exposing
            && stage->Exposing_op_id == outcome->Registered_0,
        binding.stage == OpStage::Registering && outcome is Registered && binding.target is Global
            ==> step is Install && step->Install_script@ == binding_script(
            binding.target->Global_name@,
            binding.mode,
            outcome->Registered_0,
        ) && stage is Installing && stage->Installing_op_id == outcome->Registered_0,
        binding.stage is Installing && outcome is Installed ==> step is Expose
            && step->Expose_op_id == binding.stage->Installing_op_id && stage is Exposing
            && stage->Exposing_op_id == binding.stage->Installing_op_id,
        binding.stage is Exposing && outcome is Exposed ==> step is Done && step->Done_op_id
            == binding.stage->Exposing_op_id,
        step is Done ==> binding.stage is Exposing && outcome is Exposed,
{
}

/// Every operation of a runtime says in words of its own that it failed.
pub proof fn law_contexts_are_told_apart(context: CallContext, other: CallContext)
    ensures
        context_text(context) == context_text(other) ==> context == other,
        context_text(context).len() > 0,
{
    reveal_strlit("Failed to spawn runtime");
    reveal_strlit("Evaluation failed");
    reveal_strlit("Module evaluation failed");
    reveal_strlit("Failed to obtain runtime stats");
    reveal_strlit("Shutdown failed");
    reveal_strlit("Termination failed");
    reveal_strlit("Op registration failed");
    reveal_strlit("Op revocation failed");
    reveal_strlit("Failed to bind object");
    reveal_strlit("Failed to set module resolver");
    reveal_strlit("Failed to set module loader");
    reveal_strlit("Failed to add static module");
    reveal_strlit("Function call failed");
    reveal_strlit("Failed to release function");
    reveal_strlit("Stream registration failed");
    assert("Failed to spawn runtime"@.len() == 23);
    assert("Evaluation failed"@.len() == 17);
    assert("Module evaluation failed"@.len() == 24);
    assert("Failed to obtain runtime stats"@.len() == 30);
    assert("Shutdown failed"@.len() == 15);
    assert("Termination failed"@.len() == 18);
    assert("Op registration failed"@.len() == 22);
    assert("Op revocation failed"@.len() == 20);
    assert("Failed to bind object"@.len() == 21);
    assert("Failed to set module resolver"@.len() == 29);
    assert("Failed to set module loader"@.len() == 27);
    assert("Failed to add static module"@.len() == 27);
    assert("Function call failed"@.len() == 20);
    assert("Failed to release function"@.len() == 26);
    assert("Stream registration failed"@.len() == 26);
    assert("Op revocation failed"@[0] != "Function call failed"@[0]);
    assert("Failed to set module loader"@[10] != "Failed to add static module"@[10]);
    assert("Failed to release function"@[0] != "Stream registration failed"@[0]);
}

/// The console is stubbed out before anything else runs, it is captured after that, and
/// the bootstrap script runs last; of each there is one where it was asked for.
pub proof fn law_scripts_run_in_order(config: RuntimeConfig, captured: Option<ScriptView>)
    ensures
        ({
            let scripts = startup_order(config, captured);
            let stubbed: nat = if config.enable_console == Some(false) {
                1
            } else {
                0
            };
            let caught: nat = if captured is Some {
                1
            } else {
                0
            };
            let booted: nat = if config.bootstrap_script is Some {
                1
            } else {
                0
            };
            &&& scripts.len() == stubbed + caught + booted
            &&& stubbed == 1 ==> scripts[0].source == DISABLE_CONSOLE_JS@
            &&& caught == 1 ==> scripts[stubbed as int] == captured->0
            &&& booted == 1 ==> scripts.last().source == config.bootstrap_script->0@
        }),
{
}

/// A builder of snapshots stubs the console out first, and runs the bootstrap script
/// last; each where it was asked for.
pub proof fn law_snapshot_scripts_run_in_order(config: SnapshotBuilderConfig)
    ensures
        ({
            let scripts = first_scripts(config);
            let stubbed: nat = if config.enable_console == Some(false) {
                1
            } else {
                0
            };
            let booted: nat = if config.bootstrap_script is Some {
                1
            } else {
                0
            };
            &&& scripts.len() == stubbed + booted
            &&& stubbed == 1 ==> scripts[0].source == SNAPSHOT_DISABLE_CONSOLE_JS@
            &&& booted == 1 ==> scripts.last().source == config.bootstrap_script->0@
        }),
{
}

/// A console that has a callback is captured: the callback is reached, synchronously,
/// with a token that nothing had before, and the script hands console output to that
/// token; the previous console is called too exactly if it is enabled. Without a
/// callback nothing is registered and no script is made.
pub proof fn law_console_output_reaches_its_callback(
    before: OpsView,
    config: RuntimeConfig,
    after: OpsView,
    script: Option<ScriptView>,
)
    requires
        console_captured(before, config, after, script),
    ensures
        script is Some <==> config.on_console is Some,
        script is None ==> after == before,
        script is Some ==> exists|id: u64|
            {
                &&& is_token(id)
                &&& !before.handlers.contains_key(id)
                &&& (#[trigger] after.dispatched(id)) is Some
                &&& after.dispatched(id)->0.handler == (config.on_console->0).0
                &&& after.dispatched(id)->0.mode == PythonOpMode::Sync
                &&& script->0.source == CONSOLE_CAPTURE_HEAD_JS@ + decimal(id as nat)
                    + CONSOLE_CAPTURE_MIDDLE_JS@ + (if config.enable_console == Some(true) {
                    "true"@
                } else {
                    "false"@
                }) + CONSOLE_CAPTURE_TAIL_JS@
            },
        script is Some ==> forall|other: u64|
            before.handlers.contains_key(other) ==> (#[trigger] after.dispatched(other))
                == before.dispatched(other),
{
    if script is Some {
        let entry = choose|entry: PythonOpEntry|
            {
                &&& is_token(entry.id)
                &&& !before.handlers.contains_key(entry.id)
                &&& crate::startup::is_console_op(entry, config)
                &&& after == (#[trigger] before.registered(entry)).exposing(entry.id)
                &&& script->0 == crate::startup::capture_view(entry.id, config)
            };
        assert(after.dispatched(entry.id) == Some(entry));
    }
}

/// Random bits are accepted for a token exactly if they are not all zero and the token is
/// not taken.
pub proof fn law_free_tokens_are_accepted(registry: OpsView, raw: u64)
    ensures
        registry.accepts(raw) <==> (raw as int % 0x20_0000_0000_0000) != 0
            && !registry.handlers.contains_key((raw as int % 0x20_0000_0000_0000) as u64),
        OpsView::fresh().accepts(raw) <==> (raw as int % 0x20_0000_0000_0000) != 0,
{
}

/// Before any guest code the console is stubbed out, captured and the bootstrap script
/// run, in this order and each where it was asked for; what the console has to say
/// reaches its callback.
pub proof fn law_startup_scripts_are_made(
    before: OpsView,
    config: RuntimeConfig,
    after: OpsView,
    scripts: Seq<ScriptView>,
)
    requires
        scripts_made(before, config, after, scripts),
    ensures
        config.on_console is None ==> after == before,
        config.enable_console == Some(false) ==> scripts.len() > 0 && scripts[0].source
            == DISABLE_CONSOLE_JS@,
        config.bootstrap_script is Some ==> scripts.len() > 0 && scripts.last().source
            == config.bootstrap_script->0@,
        config.on_console is Some ==> exists|id: u64, i: int|
            {
                &&& (#[trigger] after.dispatched(id)) is Some
                &&& !before.handlers.contains_key(id)
                &&& after.dispatched(id)->0.handler == (config.on_console->0).0
                &&& 0 <= i < scripts.len()
                &&& has_prefix(
                    (#[trigger] scripts[i]).source,
                    CONSOLE_CAPTURE_HEAD_JS@ + decimal(id as nat),
                )
            },
        scripts.len() == (if config.enable_console == Some(false) {
            1int
        } else {
            0
        }) + (if config.on_console is Some {
            1int
        } else {
            0
        }) + (if config.bootstrap_script is Some {
            1int
        } else {
            0
        }),
{
    let captured = choose|captured: Option<ScriptView>|
        {
            &&& #[trigger] console_captured(before, config, after, captured)
            &&& captured is Some <==> config.on_console is Some
            &&& scripts == startup_order(config, captured)
        };
    law_scripts_run_in_order(config, captured);
    law_console_output_reaches_its_callback(before, config, after, captured);
    if config.on_console is Some {
        let id = choose|id: u64|
            {
                &&& is_token(id)
                &&& !before.handlers.contains_key(id)
                &&& (#[trigger] after.dispatched(id)) is Some
                &&& after.dispatched(id)->0.handler == (config.on_console->0).0
                &&& after.dispatched(id)->0.mode == PythonOpMode::Sync
                &&& captured->0.source == CONSOLE_CAPTURE_HEAD_JS@ + decimal(id as nat)
                    + CONSOLE_CAPTURE_MIDDLE_JS@ + (if config.enable_console == Some(true) {
                    "true"@
                } else {
                    "false"@
                }) + CONSOLE_CAPTURE_TAIL_JS@
            };
        let i: int = if config.enable_console == Some(false) {
            1
        } else {
            0
        };
        assert(scripts[i] == captured->0);
        let head = CONSOLE_CAPTURE_HEAD_JS@ + decimal(id as nat);
        assert(scripts[i].source.subrange(0, head.len() as int) =~= head);
        assert(has_prefix(scripts[i].source, head));
        assert(after.dispatched(id) is Some);
    }
}

} // verus!
