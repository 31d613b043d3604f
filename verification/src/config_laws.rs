//! What a configuration is made of, and what is refused.

use crate::config::{
    address_candidate, configured, endpoint_text, inspector_text, is_blank, is_white_space, refusal,
    timeout_span, ConfigArguments, InspectorConfig, RuntimeConfig, TimeoutReading,
};
use crate::double::Double;
use crate::error::text_view;
use crate::stream_laws::ends_with;
use crate::text::{decimal, has_prefix, has_substring, occurs_at};
use crate::time::{seconds_to_nanos, MAX_NANOS};
use vstd::prelude::*;
use vstd::std_specs::cmp::PartialEqSpec;

verus! {

/// A host is blank exactly if nothing but spaces, tabs, line ends and the like is in it;
/// no printable character of ASCII is one of them.
pub proof fn law_blank_hosts_show_nothing(text: Seq<char>, i: int)
    ensures
        is_blank(Seq::<char>::empty()),
        is_white_space(' ') && is_white_space('\t') && is_white_space('\n') && is_white_space(
            '\r',
        ),
        0 <= i < text.len() && 0x21 <= text[i] as u32 <= 0x7e ==> !is_blank(text),
        is_blank(text) && 0 <= i < text.len() ==> is_white_space(text[i]),
{
    if 0 <= i < text.len() && 0x21 <= text[i] as u32 <= 0x7e {
        assert(!is_white_space(text[i]));
    }
}

/// An address is made of a host that shows something and a port above zero, in this
/// order; a host with colons is put in brackets, unless it is in some already.
pub proof fn law_addresses_name_host_and_port(host: Seq<char>, port: u16)
    ensures
        address_candidate(host, port) is Ok <==> !is_blank(host) && port > 0,
        address_candidate(host, port) is Ok ==> ends_with(
            address_candidate(host, port)->Ok_0,
            ":"@ + decimal(port as nat),
        ),
        address_candidate(host, port) is Ok && (!host.contains(':') || host[0] == '[')
            ==> has_prefix(address_candidate(host, port)->Ok_0, host) && address_candidate(
            host,
            port,
        )->Ok_0 == host + ":"@ + decimal(port as nat),
        address_candidate(host, port) is Ok && host.contains(':') && host[0] != '['
            ==> address_candidate(host, port)->Ok_0 == "["@ + host + "]:"@ + decimal(port as nat),
{
    reveal_strlit(":");
    reveal_strlit("[");
    reveal_strlit("]:");
    lemma_colons(host);
    if has_prefix(host, "["@) {
        assert(host.subrange(0, 1)[0] == "["@[0]);
    }
    if host.len() > 0 && host[0] == '[' {
        assert(host.subrange(0, 1) =~= "["@);
    }
    let end = ":"@ + decimal(port as nat);
    let plain = host + ":"@ + decimal(port as nat);
    assert(plain.subrange(plain.len() - end.len(), plain.len() as int) =~= end);
    assert(plain.subrange(0, host.len() as int) =~= host);
    let bracketed = "["@ + host + "]:"@ + decimal(port as nat);
    assert(bracketed.subrange(bracketed.len() - end.len(), bracketed.len() as int) =~= end);
}

proof fn lemma_colons(host: Seq<char>)
    ensures
        has_substring(host, ":"@) <==> host.contains(':'),
{
    reveal_strlit(":");
    if host.contains(':') {
        let i = choose|i: int| 0 <= i < host.len() && host[i] == ':';
        assert(host.subrange(i, i + 1) =~= ":"@);
        assert(occurs_at(host, ":"@, i));
    }
    if has_substring(host, ":"@) {
        let at = choose|at: int| occurs_at(host, ":"@, at);
        assert(host.subrange(at, at + 1)[0] == ":"@[0]);
        assert(host[at] == ':');
    }
}

/// An inspector's address is written as its host and its port; an IPv6 host is in
/// brackets, with its scope where it has one.
pub proof fn law_endpoints_name_host_and_port(host: Seq<char>, scope_id: u32, port: u16)
    ensures
        !host.contains(':') ==> endpoint_text(host, scope_id, port) == host + ":"@ + decimal(
            port as nat,
        ),
        host.contains(':') && scope_id == 0 ==> endpoint_text(host, scope_id, port) == "["@ + host
            + "]:"@ + decimal(port as nat),
        host.contains(':') && scope_id != 0 ==> endpoint_text(host, scope_id, port) == "["@ + host
            + "%"@ + decimal(scope_id as nat) + "]:"@ + decimal(port as nat),
{
    lemma_colons(host);
    if host.contains(':') && scope_id == 0 {
        assert("["@ + host + Seq::<char>::empty() =~= "["@ + host);
    }
    if host.contains(':') && scope_id != 0 {
        assert("["@ + host + ("%"@ + decimal(scope_id as nat)) =~= "["@ + host + "%"@ + decimal(
            scope_id as nat,
        ));
    }
}

/// A configuration of the inspector is shown with its host first, its port and its two
/// switches.
pub proof fn law_inspectors_are_shown(
    config: InspectorConfig,
    host: Seq<char>,
    target_url: Option<Seq<char>>,
    display_name: Option<Seq<char>>,
)
    ensures
        has_prefix(
            inspector_text(config, host, target_url, display_name),
            "InspectorConfig(host="@ + host + ", port="@ + decimal(config.port as nat)
                + ", wait_for_connection="@ + (if config.wait_for_connection {
                "true"@
            } else {
                "false"@
            }) + ", break_on_next_statement="@ + (if config.break_on_next_statement {
                "true"@
            } else {
                "false"@
            }),
        ),
        target_url is Some ==> has_substring(
            inspector_text(config, host, target_url, display_name),
            ", target_url=Some("@ + target_url->0 + ")"@,
        ),
        display_name is Some ==> ends_with(
            inspector_text(config, host, target_url, display_name),
            ", display_name=Some("@ + display_name->0 + "))"@,
        ),
{
    reveal_strlit(", target_url=");
    reveal_strlit("Some(");
    reveal_strlit(", target_url=Some(");
    reveal_strlit(", display_name=");
    reveal_strlit(", display_name=Some(");
    reveal_strlit(")");
    reveal_strlit("))");
    let text = inspector_text(config, host, target_url, display_name);
    let start = "InspectorConfig(host="@ + host + ", port="@ + decimal(config.port as nat)
        + ", wait_for_connection="@ + (if config.wait_for_connection {
        "true"@
    } else {
        "false"@
    }) + ", break_on_next_statement="@ + (if config.break_on_next_statement {
        "true"@
    } else {
        "false"@
    });
    assert(text.subrange(0, start.len() as int) =~= start);
    if target_url is Some {
        let part = ", target_url=Some("@ + target_url->0 + ")"@;
        let at = start.len() as int;
        assert(", target_url="@ + "Some("@ =~= ", target_url=Some("@);
        assert(text.subrange(at, at + part.len()) =~= part);
        assert(occurs_at(text, part, at));
    }
    if display_name is Some {
        let end = ", display_name=Some("@ + display_name->0 + "))"@;
        assert(", display_name="@ + "Some("@ =~= ", display_name=Some("@);
        assert(text.subrange(text.len() - end.len(), text.len() as int) =~= end);
    }
}

/// A timeout is a number of seconds, whole or not, or a span of them: it is taken exactly
/// if it is finite, not below zero and no longer than the longest span, and in whole
/// nanoseconds.
pub proof fn law_timeouts_are_seconds(seconds: Double, whole: u64, signed: i64)
    ensures
        timeout_span(TimeoutReading::WholeSeconds(whole)) == Ok::<nat, Seq<char>>(
            (whole * 1_000_000_000) as nat,
        ),
        signed >= 0 ==> timeout_span(TimeoutReading::SignedSeconds(signed)) == Ok::<
            nat,
            Seq<char>,
        >((signed * 1_000_000_000) as nat),
        signed < 0 ==> timeout_span(TimeoutReading::SignedSeconds(signed)) is Err,
        timeout_span(TimeoutReading::Seconds(seconds)) is Ok <==> seconds.finite()
            && !seconds.below_zero() && seconds_to_nanos(seconds) <= MAX_NANOS,
        timeout_span(TimeoutReading::Seconds(seconds)) is Ok && seconds_to_nanos(seconds) >= 0
            ==> timeout_span(TimeoutReading::Seconds(seconds))->Ok_0 == seconds_to_nanos(seconds),
        timeout_span(TimeoutReading::TimeDelta(seconds)) == timeout_span(
            TimeoutReading::Seconds(seconds),
        ),
        timeout_span(TimeoutReading::Unsupported) is Err,
{
}

/// A timeout that can be read, or none.
pub open spec fn is_readable(reading: Option<TimeoutReading>) -> bool {
    reading is Some ==> timeout_span(reading->0) is Ok
}

/// Arguments are refused exactly if a snapshot comes with a bootstrap script, is no
/// bytes or is empty, a span cannot be read, the console callback cannot be called, or a
/// limit is zero.
pub proof fn law_arguments_are_refused_for_a_reason(args: ConfigArguments)
    ensures
        refusal(args) is None <==> {
            &&& !(args.bootstrap is Some && args.snapshot is Some)
            &&& is_readable(args.timeout)
            &&& args.on_console is Some ==> (args.on_console->0).1
            &&& args.snapshot is Some ==> args.snapshot->0 is Bytes
                && args.snapshot->0->Bytes_0@.len() > 0
            &&& args.max_serialization_depth is Some ==> args.max_serialization_depth->0 > 0
            &&& args.max_serialization_bytes is Some ==> args.max_serialization_bytes->0 > 0
            &&& is_readable(args.force_kill_grace)
        },
{
}

/// A configuration holds what it was made of; what was left out is the default: no
/// limits of the heap, no timeout, no console, and the usual limits of transfers.
pub proof fn law_configurations_hold_their_arguments(args: ConfigArguments, config: RuntimeConfig)
    requires
        configured(args, config),
    ensures
        config.max_heap_size == args.max_heap_size,
        config.initial_heap_size == args.initial_heap_size,
        config.bootstrap_script == args.bootstrap,
        config.inspector == args.inspector,
        args.timeout is None ==> config.execution_timeout is None,
        args.timeout is Some ==> config.execution_timeout is Some && timeout_span(args.timeout->0)
            == Ok::<nat, Seq<char>>(config.execution_timeout->0@),
        args.force_kill_grace is None ==> config.force_kill_grace is None,
        args.force_kill_grace is Some ==> config.force_kill_grace is Some && timeout_span(
            args.force_kill_grace->0,
        ) == Ok::<nat, Seq<char>>(config.force_kill_grace->0@),
        args.enable_console is Some ==> config.enable_console == args.enable_console,
        args.enable_console is None ==> config.enable_console == Some(false),
        args.on_console is Some ==> config.on_console is Some && (config.on_console->0).0 == (
        args.on_console->0).0,
        args.on_console is None ==> config.on_console is None,
        args.snapshot is Some && args.snapshot->0 is Bytes ==> config.snapshot is Some
            && config.snapshot->0 == args.snapshot->0->Bytes_0,
        args.snapshot is None ==> config.snapshot is None,
        config.max_serialization_depth == (if args.max_serialization_depth is Some {
            args.max_serialization_depth->0
        } else {
            100
        }),
        config.max_serialization_bytes == (if args.max_serialization_bytes is Some {
            args.max_serialization_bytes->0
        } else {
            10_485_760
        }),
{
}

/// Two configurations of the inspector are the same exactly if everything in them is.
pub proof fn law_inspectors_are_the_same_by_what_they_hold(
    one: InspectorConfig,
    other: InspectorConfig,
)
    ensures
        one.eq_spec(&one),
        one.eq_spec(&other) ==> other.eq_spec(&one),
        one.host@ != other.host@ ==> !one.eq_spec(&other),
        one.scope_id != other.scope_id ==> !one.eq_spec(&other),
        one.port != other.port ==> !one.eq_spec(&other),
        one.wait_for_connection != other.wait_for_connection ==> !one.eq_spec(&other),
        one.break_on_next_statement != other.break_on_next_statement ==> !one.eq_spec(&other),
        text_view(one.target_url) != text_view(other.target_url) ==> !one.eq_spec(&other),
        text_view(one.display_name) != text_view(other.display_name) ==> !one.eq_spec(&other),
        one.host@ == other.host@ && one.scope_id == other.scope_id && one.port == other.port
            && one.wait_for_connection == other.wait_for_connection && one.break_on_next_statement
            == other.break_on_next_statement && text_view(one.target_url) == text_view(
            other.target_url,
        ) && text_view(one.display_name) == text_view(other.display_name) ==> one.eq_spec(&other),
{
}

} // verus!
