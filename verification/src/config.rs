//! Runtime configuration for isolate-per-tenant execution.

use crate::double::Double;
use crate::limits::{SerializationLimits, MAX_JS_BYTES, MAX_JS_DEPTH};
use crate::text::{
    chars_of, contains, debug_str, decimal, has_prefix, has_substring, join3, push_decimal,
    shown_text, starts_with, str_eq,
};
use crate::time::{seconds_to_nanos, span_from_seconds, Duration, MAX_NANOS};
use vstd::prelude::*;

verus! {

/// Suggested grace period, in milliseconds, for
/// [`RuntimeConfig::force_kill_grace`].
pub const SUGGESTED_FORCE_KILL_GRACE: u64 = 100;

/// A result whose failure is taken by its text.
pub open spec fn text_result<T>(result: Result<T, String>) -> Result<T, Seq<char>> {
    match result {
        Ok(value) => Ok(value),
        Err(text) => Err(text@),
    }
}

/// A character that counts as white space.
pub open spec fn is_white_space(c: char) -> bool {
    let n = c as u32;
    (0x9 <= n <= 0xd) || n == 0x20 || n == 0x85 || n == 0xa0 || n == 0x1680 || (0x2000 <= n
        <= 0x200a) || n == 0x2028 || n == 0x2029 || n == 0x202f || n == 0x205f || n == 0x3000
}

/// Nothing is left of the text once white space is trimmed.
pub open spec fn is_blank(text: Seq<char>) -> bool {
    forall|i: int| 0 <= i < text.len() ==> is_white_space(#[trigger] text[i])
}

fn white_space(c: char) -> (yes: bool)
    ensures
        yes == is_white_space(c),
{
    let n: u32 = c as u32;
    (0x9 <= n && n <= 0xd) || n == 0x20 || n == 0x85 || n == 0xa0 || n == 0x1680 || (0x2000 <= n
        && n <= 0x200a) || n == 0x2028 || n == 0x2029 || n == 0x202f || n == 0x205f || n == 0x3000
}

fn blank(text: &str) -> (yes: bool)
    ensures
        yes == is_blank(text@),
{
    let chars: Vec<char> = chars_of(text);
    let mut i: usize = 0;
    while i < chars.len()
        invariant
            i <= chars@.len(),
            chars@ == text@,
            forall|k: int| 0 <= k < i ==> is_white_space(#[trigger] chars@[k]),
        decreases chars@.len() - i,
    {
        if !white_space(chars[i]) {
            assert(!is_white_space(text@[i as int]));
            return false;
        }
        i = i + 1;
    }
    true
}

/// The socket address that a host and a port are written as; a host with colons
/// that is not bracketed yet is put in brackets.
pub open spec fn address_text(host: Seq<char>, port: nat) -> Seq<char> {
    if has_substring(host, ":"@) && !has_prefix(host, "["@) {
        "["@ + host + "]:"@ + decimal(port)
    } else {
        host + ":"@ + decimal(port)
    }
}

/// The socket address to be parsed, or why host and port are refused.
pub open spec fn address_candidate(host: Seq<char>, port: u16) -> Result<Seq<char>, Seq<char>> {
    if is_blank(host) {
        Err("Inspector host cannot be empty"@)
    } else if port == 0 {
        Err("Inspector port must be a positive integer"@)
    } else {
        Ok(address_text(host, port as nat))
    }
}

/// Checks a host and a port and writes them as a socket address to be parsed.
pub fn parse_socket_addr(host: &str, port: u16) -> (result: Result<String, String>)
    ensures
        match result {
            Ok(text) => address_candidate(host@, port) == Ok::<_, Seq<char>>(text@),
            Err(text) => address_candidate(host@, port) == Err::<Seq<char>, _>(text@),
        },
{
    if blank(host) {
        return Err("Inspector host cannot be empty".to_owned());
    }
    if port == 0 {
        return Err("Inspector port must be a positive integer".to_owned());
    }
    let mut candidate = String::new();
    if contains(host, ":") && !starts_with(host, "[") {
        candidate.append("[");
        candidate.append(host);
        candidate.append("]:");
    } else {
        candidate.append(host);
        candidate.append(":");
    }
    push_decimal(&mut candidate, port as u64);
    assert(candidate@ =~= address_text(host@, port as nat));
    Ok(candidate)
}

/// The failure for a socket address that could not be parsed.
pub fn invalid_address(candidate: &str, err: &str) -> (text: String)
    ensures
        text@ == "Invalid inspector address '"@ + candidate@ + "': "@ + err@,
{
    let mut text = "Invalid inspector address '".to_owned();
    text.append(candidate);
    text.append("': ");
    text.append(err);
    text
}

/// Inspector configuration for Chrome DevTools Protocol debugging.
#[derive(Debug)]
pub struct InspectorConfig {
    /// IP address for the inspector server.
    pub host: String,
    /// Scope of an IPv6 address, by number; zero for none.
    pub scope_id: u32,
    /// Port for the inspector server.
    pub port: u16,
    /// If true, runtime waits for debugger connection before executing code.
    pub wait_for_connection: bool,
    /// If true, execution pauses at the first statement for debugging.
    pub break_on_next_statement: bool,
    /// Optional target URL identifier (e.g., module name or script path).
    pub target_url: Option<String>,
    /// Optional display name shown in DevTools (e.g., "Main Runtime").
    pub display_name: Option<String>,
}

fn copy_text(text: &Option<String>) -> (copy: Option<String>)
    ensures
        copy == *text,
{
    match text {
        Some(t) => Some(t.clone()),
        None => None,
    }
}

impl Clone for InspectorConfig {
    fn clone(&self) -> (copy: Self)
        ensures
            copy == *self,
    {
        InspectorConfig {
            host: self.host.clone(),
            scope_id: self.scope_id,
            port: self.port,
            wait_for_connection: self.wait_for_connection,
            break_on_next_statement: self.break_on_next_statement,
            target_url: copy_text(&self.target_url),
            display_name: copy_text(&self.display_name),
        }
    }
}

impl Default for InspectorConfig {
    fn default() -> (config: Self)
        ensures
            config.host@ == "127.0.0.1"@,
            config.scope_id == 0,
            config.port == 9229,
            !config.wait_for_connection,
            !config.break_on_next_statement,
            config.target_url is None,
            config.display_name is None,
    {
        InspectorConfig {
            host: "127.0.0.1".to_owned(),
            scope_id: 0,
            port: 9229,
            wait_for_connection: false,
            break_on_next_statement: false,
            target_url: None,
            display_name: None,
        }
    }
}

impl InspectorConfig {
    /// The configuration of an inspector server at an address that was parsed.
    pub fn new(
        host: String,
        scope_id: u32,
        port: u16,
        wait_for_connection: bool,
        break_on_next_statement: bool,
        target_url: Option<String>,
        display_name: Option<String>,
    ) -> (config: Self)
        ensures
            config == (InspectorConfig {
                host,
                scope_id,
                port,
                wait_for_connection,
                break_on_next_statement,
                target_url,
                display_name,
            }),
    {
        InspectorConfig {
            host,
            scope_id,
            port,
            wait_for_connection,
            break_on_next_statement,
            target_url,
            display_name,
        }
    }

    /// The address of the inspector server: IP, scope and port.
    pub fn socket_addr(&self) -> (address: (String, u32, u16))
        ensures
            address == (self.host, self.scope_id, self.port),
    {
        (self.host.clone(), self.scope_id, self.port)
    }

    pub fn host(&self) -> (host: String)
        ensures
            host == self.host,
    {
        self.host.clone()
    }

    pub fn port(&self) -> (port: u16)
        ensures
            port == self.port,
    {
        self.port
    }

    pub fn wait_for_connection(&self) -> (wait: bool)
        ensures
            wait == self.wait_for_connection,
    {
        self.wait_for_connection
    }

    pub fn set_wait_for_connection(&mut self, wait: bool)
        ensures
            *final(self) == (InspectorConfig { wait_for_connection: wait, ..*old(self) }),
    {
        self.wait_for_connection = wait;
    }

    pub fn break_on_next_statement(&self) -> (should_break: bool)
        ensures
            should_break == self.break_on_next_statement,
    {
        self.break_on_next_statement
    }

    pub fn set_break_on_next_statement(&mut self, should_break: bool)
        ensures
            *final(self) == (InspectorConfig {
                break_on_next_statement: should_break,
                ..*old(self)
            }),
    {
        self.break_on_next_statement = should_break;
    }

    pub fn target_url(&self) -> (url: Option<String>)
        ensures
            url == self.target_url,
    {
        copy_text(&self.target_url)
    }

    pub fn set_target_url(&mut self, url: Option<String>)
        ensures
            *final(self) == (InspectorConfig { target_url: url, ..*old(self) }),
    {
        self.target_url = url;
    }

    pub fn display_name(&self) -> (name: Option<String>)
        ensures
            name == self.display_name,
    {
        copy_text(&self.display_name)
    }

    pub fn set_display_name(&mut self, name: Option<String>)
        ensures
            *final(self) == (InspectorConfig { display_name: name, ..*old(self) }),
    {
        self.display_name = name;
    }

    /// The socket address as text.
    pub fn endpoint(&self) -> (text: String)
        ensures
            text@ == endpoint_text(self.host@, self.scope_id, self.port),
    {
        let mut text = String::new();
        if contains(&self.host, ":") {
            text.append("[");
            text.append(&self.host);
            if self.scope_id != 0 {
                text.append("%");
                push_decimal(&mut text, self.scope_id as u64);
            }
            text.append("]:");
        } else {
            text.append(&self.host);
            text.append(":");
        }
        push_decimal(&mut text, self.port as u64);
        assert(text@ =~= endpoint_text(self.host@, self.scope_id, self.port));
        text
    }
}

/// How a parsed socket address is written: an IPv6 address, which alone has colons, is
/// put in brackets with its scope.
pub open spec fn endpoint_text(host: Seq<char>, scope_id: u32, port: u16) -> Seq<char> {
    if has_substring(host, ":"@) {
        "["@ + host + (if scope_id != 0 {
            "%"@ + decimal(scope_id as nat)
        } else {
            Seq::empty()
        }) + "]:"@ + decimal(port as nat)
    } else {
        host + ":"@ + decimal(port as nat)
    }
}

fn same_text(a: &Option<String>, b: &Option<String>) -> (same: bool)
    ensures
        same == (optional_text(*a) == optional_text(*b)),
{
    match (a, b) {
        (Some(x), Some(y)) => str_eq(x, y),
        (None, None) => true,
        _ => false,
    }
}

impl vstd::std_specs::cmp::PartialEqSpecImpl for InspectorConfig {
    open spec fn obeys_eq_spec() -> bool {
        true
    }

    open spec fn eq_spec(&self, other: &InspectorConfig) -> bool {
        &&& self.host@ == other.host@
        &&& self.scope_id == other.scope_id
        &&& self.port == other.port
        &&& self.wait_for_connection == other.wait_for_connection
        &&& self.break_on_next_statement == other.break_on_next_statement
        &&& optional_text(self.target_url) == optional_text(other.target_url)
        &&& optional_text(self.display_name) == optional_text(other.display_name)
    }
}

impl PartialEq for InspectorConfig {
    fn eq(&self, other: &InspectorConfig) -> (same: bool) {
        str_eq(&self.host, &other.host) && self.scope_id == other.scope_id && self.port
            == other.port && self.wait_for_connection == other.wait_for_connection
            && self.break_on_next_statement == other.break_on_next_statement && same_text(
            &self.target_url,
            &other.target_url,
        ) && same_text(&self.display_name, &other.display_name)
    }
}

impl Eq for InspectorConfig {

}

/// An optional text by what it holds.
pub open spec fn optional_text(text: Option<String>) -> Option<Seq<char>> {
    match text {
        Some(t) => Some(t@),
        None => None,
    }
}

/// An optional text as it is shown, once the text itself is.
pub open spec fn wrapped(shown: Option<Seq<char>>) -> Seq<char> {
    match shown {
        Some(t) => "Some("@ + t + ")"@,
        None => "None"@,
    }
}

fn wrap(shown: &Option<String>) -> (text: String)
    ensures
        text@ == wrapped(optional_text(*shown)),
{
    match shown {
        Some(t) => join3("Some(", t, ")"),
        None => "None".to_owned(),
    }
}

/// What is shown of an optional text.
pub open spec fn shown_option(text: Option<String>) -> Option<Seq<char>> {
    match text {
        Some(t) => Some(shown_text(t@)),
        None => None,
    }
}

fn show_option(text: &Option<String>) -> (shown: Option<String>)
    ensures
        optional_text(shown) == shown_option(*text),
{
    match text {
        Some(t) => Some(debug_str(t)),
        None => None,
    }
}

/// How a truth value is shown.
pub open spec fn shown_bool(b: bool) -> Seq<char> {
    if b {
        "true"@
    } else {
        "false"@
    }
}

fn show_bool(b: bool) -> (shown: &'static str)
    ensures
        shown@ == shown_bool(b),
{
    if b {
        "true"
    } else {
        "false"
    }
}

/// How an inspector configuration is shown, given how its texts are.
pub open spec fn inspector_text(
    config: InspectorConfig,
    host: Seq<char>,
    target_url: Option<Seq<char>>,
    display_name: Option<Seq<char>>,
) -> Seq<char> {
    "InspectorConfig(host="@ + host + ", port="@ + decimal(config.port as nat)
        + ", wait_for_connection="@ + shown_bool(config.wait_for_connection)
        + ", break_on_next_statement="@ + shown_bool(config.break_on_next_statement)
        + ", target_url="@ + wrapped(target_url) + ", display_name="@ + wrapped(display_name)
        + ")"@
}

impl InspectorConfig {
    /// How Python shows the configuration.
    pub fn repr(&self) -> (text: String)
        ensures
            text@ == inspector_text(
                *self,
                shown_text(self.host@),
                shown_option(self.target_url),
                shown_option(self.display_name),
            ),
    {
        self.repr_with(
            &debug_str(&self.host),
            show_option(&self.target_url),
            show_option(&self.display_name),
        )
    }

    /// How Python shows the configuration, given how its texts are shown.
    pub fn repr_with(
        &self,
        host: &str,
        target_url: Option<String>,
        display_name: Option<String>,
    ) -> (text: String)
        ensures
            text@ == inspector_text(
                *self,
                host@,
                optional_text(target_url),
                optional_text(display_name),
            ),
    {
        let mut text = "InspectorConfig(host=".to_owned();
        text.append(host);
        text.append(", port=");
        push_decimal(&mut text, self.port as u64);
        text.append(", wait_for_connection=");
        text.append(show_bool(self.wait_for_connection));
        text.append(", break_on_next_statement=");
        text.append(show_bool(self.break_on_next_statement));
        text.append(", target_url=");
        text.append(&wrap(&target_url));
        text.append(", display_name=");
        text.append(&wrap(&display_name));
        text.append(")");
        text
    }
}

/// A Python callable held in a config value, by the number under which the
/// interpreter's object is kept.
#[derive(Debug, Clone, Copy, PartialEq, Eq, Structural)]
pub struct ConsoleCallback(pub u64);

/// What is read of a timeout argument.
#[derive(Debug, Clone, Copy)]
pub enum TimeoutReading {
    /// A number of seconds that a double can hold.
    Seconds(Double),
    /// A whole number of seconds.
    WholeSeconds(u64),
    /// A whole number of seconds that may be negative.
    SignedSeconds(i64),
    /// A timedelta, by its total seconds.
    TimeDelta(Double),
    /// Neither a number nor a timedelta.
    Unsupported,
}

/// The span of a timeout argument, or why it is refused.
pub open spec fn timeout_span(reading: TimeoutReading) -> Result<nat, Seq<char>> {
    match reading {
        TimeoutReading::Seconds(d) => seconds_span(d),
        TimeoutReading::WholeSeconds(n) => Ok((n * 1_000_000_000) as nat),
        TimeoutReading::SignedSeconds(n) => if n < 0 {
            Err("Timeout cannot be negative"@)
        } else {
            Ok((n * 1_000_000_000) as nat)
        },
        TimeoutReading::TimeDelta(d) => seconds_span(d),
        TimeoutReading::Unsupported => Err(
            "Timeout must be a number (seconds) or datetime.timedelta object"@,
        ),
    }
}

/// The span of a number of seconds, or why it is refused.
pub open spec fn seconds_span(seconds: Double) -> Result<nat, Seq<char>> {
    if !seconds.finite() {
        Err("Timeout must be finite"@)
    } else if seconds.below_zero() {
        Err("Timeout cannot be negative"@)
    } else if seconds_to_nanos(seconds) > MAX_NANOS {
        Err("Timeout is too large"@)
    } else {
        Ok(seconds_to_nanos(seconds) as nat)
    }
}

/// A span with its failure by the text.
pub open spec fn span_result(result: Result<Duration, String>) -> Result<nat, Seq<char>> {
    match result {
        Ok(span) => Ok(span@),
        Err(text) => Err(text@),
    }
}

fn span_of_seconds(seconds: Double) -> (result: Result<Duration, String>)
    ensures
        span_result(result) == seconds_span(seconds),
{
    if !seconds.is_finite() {
        return Err("Timeout must be finite".to_owned());
    }
    if seconds.is_below_zero() {
        return Err("Timeout cannot be negative".to_owned());
    }
    match span_from_seconds(seconds) {
        Some(span) => Ok(span),
        None => Err("Timeout is too large".to_owned()),
    }
}

/// What is read of a snapshot argument.
#[derive(Debug)]
pub enum SnapshotReading {
    Bytes(Vec<u8>),
    /// The argument is not bytes.
    Failed(String),
}

/// Runtime configuration for a single JavaScript isolate.
#[derive(Debug)]
pub struct RuntimeConfig {
    /// Maximum heap size in bytes (None = engine default).
    pub max_heap_size: Option<usize>,
    /// Initial heap size in bytes (None = engine default).
    pub initial_heap_size: Option<usize>,
    /// Optional timeout for script execution.
    pub execution_timeout: Option<Duration>,
    /// Bootstrap script to execute on startup (before user code).
    pub bootstrap_script: Option<String>,
    /// Enable console.log/error output (default: false).
    pub enable_console: Option<bool>,
    /// Optional Python callable invoked for every `console.*` call made by guest JS.
    pub on_console: Option<ConsoleCallback>,
    /// Optional inspector configuration for debugging.
    pub inspector: Option<InspectorConfig>,
    /// Startup snapshot bytes for faster initialization.
    pub snapshot: Option<Vec<u8>>,
    /// Maximum nesting depth for Python<->JS value serialization.
    pub max_serialization_depth: usize,
    /// Maximum serialized payload size for Python<->JS transfers (bytes).
    pub max_serialization_bytes: usize,
    /// How long a blocked caller keeps waiting for the runtime to acknowledge a
    /// termination before it gives up on the runtime thread, or `None` to wait
    /// forever.
    pub force_kill_grace: Option<Duration>,
}

impl Clone for RuntimeConfig {
    fn clone(&self) -> (copy: Self)
        ensures
            copy == (RuntimeConfig { snapshot: copy.snapshot, ..*self }),
            match (copy.snapshot, self.snapshot) {
                (Some(a), Some(b)) => a@ == b@,
                (None, None) => true,
                _ => false,
            },
    {
        RuntimeConfig {
            max_heap_size: self.max_heap_size,
            initial_heap_size: self.initial_heap_size,
            execution_timeout: self.execution_timeout,
            bootstrap_script: copy_text(&self.bootstrap_script),
            enable_console: self.enable_console,
            on_console: self.on_console,
            inspector: match &self.inspector {
                Some(inspector) => Some(inspector.clone()),
                None => None,
            },
            snapshot: self.snapshot(),
            max_serialization_depth: self.max_serialization_depth,
            max_serialization_bytes: self.max_serialization_bytes,
            force_kill_grace: self.force_kill_grace,
        }
    }
}

impl Default for RuntimeConfig {
    fn default() -> (config: Self)
        ensures
            config == (RuntimeConfig {
                max_heap_size: None,
                initial_heap_size: None,
                execution_timeout: None,
                bootstrap_script: None,
                enable_console: Some(false),
                on_console: None,
                inspector: None,
                snapshot: None,
                max_serialization_depth: MAX_JS_DEPTH,
                max_serialization_bytes: MAX_JS_BYTES,
                force_kill_grace: None,
            }),
            usable(config),
    {
        RuntimeConfig {
            max_heap_size: None,
            initial_heap_size: None,
            execution_timeout: None,
            bootstrap_script: None,
            enable_console: Some(false),
            on_console: None,
            inspector: None,
            snapshot: None,
            max_serialization_depth: MAX_JS_DEPTH,
            max_serialization_bytes: MAX_JS_BYTES,
            force_kill_grace: None,
        }
    }
}

/// A snapshot and a bootstrap script are not both set, a snapshot is not empty, and
/// the serialization limits are positive.
pub open spec fn usable(config: RuntimeConfig) -> bool {
    &&& !(config.bootstrap_script is Some && config.snapshot is Some)
    &&& config.snapshot is Some ==> config.snapshot->0@.len() > 0
    &&& config.max_serialization_depth > 0
    &&& config.max_serialization_bytes > 0
}

/// An optional span and the first failure, if reading it failed.
pub open spec fn optional_span(reading: Option<TimeoutReading>) -> Result<Option<nat>, Seq<char>> {
    match reading {
        None => Ok(None),
        Some(r) => match timeout_span(r) {
            Ok(span) => Ok(Some(span)),
            Err(text) => Err(text),
        },
    }
}

/// An optional span by its length.
pub open spec fn span_view(span: Option<Duration>) -> Option<nat> {
    match span {
        Some(d) => Some(d@),
        None => None,
    }
}

/// The arguments that a configuration is made of. A callback comes with whether it
/// can be called.
#[derive(Debug)]
pub struct ConfigArguments {
    pub max_heap_size: Option<usize>,
    pub initial_heap_size: Option<usize>,
    pub bootstrap: Option<String>,
    pub timeout: Option<TimeoutReading>,
    pub enable_console: Option<bool>,
    pub on_console: Option<(u64, bool)>,
    pub inspector: Option<InspectorConfig>,
    pub snapshot: Option<SnapshotReading>,
    pub max_serialization_depth: Option<usize>,
    pub max_serialization_bytes: Option<usize>,
    pub force_kill_grace: Option<TimeoutReading>,
}

/// The first reason why arguments are refused, if they are.
pub open spec fn refusal(args: ConfigArguments) -> Option<Seq<char>> {
    if args.bootstrap is Some && args.snapshot is Some {
        Some("snapshot and bootstrap cannot be used together"@)
    } else if optional_span(args.timeout) is Err {
        Some(optional_span(args.timeout)->Err_0)
    } else if args.on_console is Some && !(args.on_console->0).1 {
        Some("on_console must be callable"@)
    } else if args.snapshot is Some && args.snapshot->0 is Failed {
        Some(args.snapshot->0->Failed_0@)
    } else if args.snapshot is Some && args.snapshot->0->Bytes_0@.len() == 0 {
        Some("Snapshot bytes cannot be empty"@)
    } else if args.max_serialization_depth == Some(0usize) {
        Some("max_serialization_depth must be a positive integer"@)
    } else if args.max_serialization_bytes == Some(0usize) {
        Some("max_serialization_bytes must be a positive integer"@)
    } else if optional_span(args.force_kill_grace) is Err {
        Some(optional_span(args.force_kill_grace)->Err_0)
    } else {
        None
    }
}

/// The configuration that accepted arguments make.
pub open spec fn configured(args: ConfigArguments, config: RuntimeConfig) -> bool {
    &&& config.max_heap_size == args.max_heap_size
    &&& config.initial_heap_size == args.initial_heap_size
    &&& optional_span(args.timeout) == Ok::<_, Seq<char>>(span_view(config.execution_timeout))
    &&& config.bootstrap_script == args.bootstrap
    &&& config.enable_console == match args.enable_console {
        Some(enable) => Some(enable),
        None => Some(false),
    }
    &&& config.on_console == match args.on_console {
        Some(callback) => Some(ConsoleCallback(callback.0)),
        None => None,
    }
    &&& config.inspector == args.inspector
    &&& config.snapshot == match args.snapshot {
        Some(SnapshotReading::Bytes(bytes)) => Some(bytes),
        _ => None,
    }
    &&& config.max_serialization_depth == match args.max_serialization_depth {
        Some(depth) => depth,
        None => MAX_JS_DEPTH,
    }
    &&& config.max_serialization_bytes == match args.max_serialization_bytes {
        Some(bytes) => bytes,
        None => MAX_JS_BYTES,
    }
    &&& optional_span(args.force_kill_grace) == Ok::<_, Seq<char>>(
        span_view(config.force_kill_grace),
    )
}

fn validate_serialization_depth(depth: usize) -> (result: Result<(), String>)
    ensures
        text_result(result) == if depth == 0 {
            Err("max_serialization_depth must be a positive integer"@)
        } else {
            Ok(())
        },
{
    if depth == 0 {
        return Err("max_serialization_depth must be a positive integer".to_owned());
    }
    Ok(())
}

fn validate_serialization_bytes(bytes: usize) -> (result: Result<(), String>)
    ensures
        text_result(result) == if bytes == 0 {
            Err("max_serialization_bytes must be a positive integer"@)
        } else {
            Ok(())
        },
{
    if bytes == 0 {
        return Err("max_serialization_bytes must be a positive integer".to_owned());
    }
    Ok(())
}

impl RuntimeConfig {
    /// The span of a timeout argument: seconds as a number, or a timedelta.
    pub fn duration_from_py_timeout(reading: TimeoutReading) -> (result: Result<Duration, String>)
        ensures
            span_result(result) == timeout_span(reading),
    {
        match reading {
            TimeoutReading::Seconds(d) => span_of_seconds(d),
            TimeoutReading::WholeSeconds(n) => Ok(Duration::from_secs(n)),
            TimeoutReading::SignedSeconds(n) => if n < 0 {
                Err("Timeout cannot be negative".to_owned())
            } else {
                Ok(Duration::from_secs(n as u64))
            },
            TimeoutReading::TimeDelta(d) => span_of_seconds(d),
            TimeoutReading::Unsupported => Err(
                "Timeout must be a number (seconds) or datetime.timedelta object".to_owned(),
            ),
        }
    }

    fn optional_duration(reading: Option<TimeoutReading>) -> (result: Result<
        Option<Duration>,
        String,
    >)
        ensures
            match result {
                Ok(span) => optional_span(reading) == Ok::<_, Seq<char>>(span_view(span)),
                Err(text) => optional_span(reading) == Err::<Option<nat>, _>(text@),
            },
    {
        match reading {
            None => Ok(None),
            Some(r) => match RuntimeConfig::duration_from_py_timeout(r) {
                Ok(span) => Ok(Some(span)),
                Err(text) => Err(text),
            },
        }
    }

    /// Create a runtime configuration; what is not given is as by default.
    pub fn new(args: ConfigArguments) -> (result: Result<RuntimeConfig, String>)
        ensures
            match result {
                Ok(config) => refusal(args) is None && configured(args, config) && usable(config),
                Err(text) => refusal(args) == Some(text@),
            },
    {
        if args.bootstrap.is_some() && args.snapshot.is_some() {
            return Err("snapshot and bootstrap cannot be used together".to_owned());
        }
        let execution_timeout: Option<Duration> = match RuntimeConfig::optional_duration(
            args.timeout,
        ) {
            Ok(span) => span,
            Err(text) => return Err(text),
        };
        let on_console: Option<ConsoleCallback> = match args.on_console {
            Some((callback, callable)) => {
                if !callable {
                    return Err("on_console must be callable".to_owned());
                }
                Some(ConsoleCallback(callback))
            },
            None => None,
        };
        let snapshot: Option<Vec<u8>> = match args.snapshot {
            Some(SnapshotReading::Bytes(bytes)) => {
                if bytes.len() == 0 {
                    return Err("Snapshot bytes cannot be empty".to_owned());
                }
                Some(bytes)
            },
            Some(SnapshotReading::Failed(text)) => return Err(text),
            None => None,
        };
        let max_serialization_depth: usize = match args.max_serialization_depth {
            Some(depth) => match validate_serialization_depth(depth) {
                Ok(()) => depth,
                Err(text) => return Err(text),
            },
            None => MAX_JS_DEPTH,
        };
        let max_serialization_bytes: usize = match args.max_serialization_bytes {
            Some(bytes) => match validate_serialization_bytes(bytes) {
                Ok(()) => bytes,
                Err(text) => return Err(text),
            },
            None => MAX_JS_BYTES,
        };
        let force_kill_grace: Option<Duration> = match RuntimeConfig::optional_duration(
            args.force_kill_grace,
        ) {
            Ok(span) => span,
            Err(text) => return Err(text),
        };
        let enable_console: Option<bool> = match args.enable_console {
            Some(enable) => Some(enable),
            None => Some(false),
        };
        Ok(
            RuntimeConfig {
                max_heap_size: args.max_heap_size,
                initial_heap_size: args.initial_heap_size,
                execution_timeout,
                bootstrap_script: args.bootstrap,
                enable_console,
                on_console,
                inspector: args.inspector,
                snapshot,
                max_serialization_depth,
                max_serialization_bytes,
                force_kill_grace,
            },
        )
    }

    /// The limits for Python<->JS transfers.
    pub fn serialization_limits(&self) -> (limits: SerializationLimits)
        ensures
            limits.max_depth == self.max_serialization_depth,
            limits.max_bytes == self.max_serialization_bytes,
    {
        SerializationLimits::new(self.max_serialization_depth, self.max_serialization_bytes)
    }

    pub fn max_heap_size(&self) -> (bytes: Option<usize>)
        ensures
            bytes == self.max_heap_size,
    {
        self.max_heap_size
    }

    pub fn set_max_heap_size(&mut self, bytes: usize)
        ensures
            *final(self) == (RuntimeConfig { max_heap_size: Some(bytes), ..*old(self) }),
    {
        self.max_heap_size = Some(bytes);
    }

    pub fn initial_heap_size(&self) -> (bytes: Option<usize>)
        ensures
            bytes == self.initial_heap_size,
    {
        self.initial_heap_size
    }

    pub fn set_initial_heap_size(&mut self, bytes: usize)
        ensures
            *final(self) == (RuntimeConfig { initial_heap_size: Some(bytes), ..*old(self) }),
    {
        self.initial_heap_size = Some(bytes);
    }

    pub fn bootstrap(&self) -> (source: Option<String>)
        ensures
            source == self.bootstrap_script,
    {
        copy_text(&self.bootstrap_script)
    }

    /// Set bootstrap script; refused beside a snapshot.
    pub fn set_bootstrap(&mut self, source: String) -> (result: Result<(), String>)
        ensures
            match result {
                Ok(_) => old(self).snapshot is None && *final(self) == (RuntimeConfig {
                    bootstrap_script: Some(source),
                    ..*old(self)
                }),
                Err(text) => old(self).snapshot is Some && *final(self) == *old(self) && text@
                    == "snapshot and bootstrap cannot be used together"@,
            },
            usable(*old(self)) ==> usable(*final(self)),
    {
        if self.snapshot.is_some() {
            return Err("snapshot and bootstrap cannot be used together".to_owned());
        }
        self.bootstrap_script = Some(source);
        Ok(())
    }

    /// The execution timeout.
    pub fn timeout(&self) -> (span: Option<Duration>)
        ensures
            span == self.execution_timeout,
    {
        self.execution_timeout
    }

    /// Set execution timeout.
    pub fn set_timeout(&mut self, timeout: TimeoutReading) -> (result: Result<(), String>)
        ensures
            match result {
                Ok(_) => timeout_span(timeout) is Ok && span_view(final(self).execution_timeout)
                    == Some(timeout_span(timeout)->Ok_0) && *final(self) == (RuntimeConfig {
                    execution_timeout: final(self).execution_timeout,
                    ..*old(self)
                }),
                Err(text) => timeout_span(timeout) == Err::<nat, _>(text@) && *final(self) == *old(
                    self,
                ),
            },
    {
        match RuntimeConfig::duration_from_py_timeout(timeout) {
            Ok(span) => {
                self.execution_timeout = Some(span);
                Ok(())
            },
            Err(text) => Err(text),
        }
    }

    pub fn enable_console(&self) -> (enable: Option<bool>)
        ensures
            enable == self.enable_console,
    {
        self.enable_console
    }

    pub fn on_console(&self) -> (callback: Option<ConsoleCallback>)
        ensures
            callback == self.on_console,
    {
        self.on_console
    }

    /// Set the console callback (`None` clears it); it comes with whether it can be
    /// called.
    pub fn set_on_console(&mut self, callback: Option<(u64, bool)>) -> (result: Result<(), String>)
        ensures
            match result {
                Ok(_) => (callback is Some ==> (callback->0).1) && *final(self) == (RuntimeConfig {
                    on_console: match callback {
                        Some(cb) => Some(ConsoleCallback(cb.0)),
                        None => None,
                    },
                    ..*old(self)
                }),
                Err(text) => callback is Some && !(callback->0).1 && *final(self) == *old(self)
                    && text@ == "on_console must be callable"@,
            },
    {
        match callback {
            Some((handle, callable)) => {
                if !callable {
                    return Err("on_console must be callable".to_owned());
                }
                self.on_console = Some(ConsoleCallback(handle));
            },
            None => {
                self.on_console = None;
            },
        }
        Ok(())
    }

    pub fn inspector(&self) -> (inspector: Option<InspectorConfig>)
        ensures
            inspector == self.inspector,
    {
        match &self.inspector {
            Some(config) => Some(config.clone()),
            None => None,
        }
    }

    pub fn set_inspector(&mut self, inspector: Option<InspectorConfig>)
        ensures
            *final(self) == (RuntimeConfig { inspector, ..*old(self) }),
    {
        self.inspector = inspector;
    }

    /// Get snapshot bytes (copied).
    pub fn snapshot(&self) -> (bytes: Option<Vec<u8>>)
        ensures
            match bytes {
                Some(copy) => self.snapshot is Some && copy@ == self.snapshot->0@,
                None => self.snapshot is None,
            },
    {
        match &self.snapshot {
            Some(bytes) => {
                let copy: Vec<u8> = bytes.clone();
                assert(copy@ == bytes@);
                Some(copy)
            },
            None => None,
        }
    }

    /// Set snapshot bytes; refused beside a bootstrap script.
    pub fn set_snapshot(&mut self, data: Option<SnapshotReading>) -> (result: Result<(), String>)
        ensures
            match result {
                Ok(_) => match data {
                    None => *final(self) == (RuntimeConfig { snapshot: None, ..*old(self) }),
                    Some(SnapshotReading::Bytes(bytes)) => old(self).bootstrap_script is None
                        && bytes@.len() > 0 && *final(self) == (RuntimeConfig {
                        snapshot: Some(bytes),
                        ..*old(self)
                    }),
                    Some(SnapshotReading::Failed(_)) => false,
                },
                Err(text) => data is Some && *final(self) == *old(self) && text@ == if old(
                    self,
                ).bootstrap_script is Some {
                    "snapshot and bootstrap cannot be used together"@
                } else {
                    match data->0 {
                        SnapshotReading::Failed(failure) => failure@,
                        SnapshotReading::Bytes(_) => "Snapshot bytes cannot be empty"@,
                    }
                },
            },
            usable(*old(self)) ==> usable(*final(self)),
    {
        let reading: SnapshotReading = match data {
            Some(reading) => reading,
            None => {
                self.snapshot = None;
                return Ok(());
            },
        };
        if self.bootstrap_script.is_some() {
            return Err("snapshot and bootstrap cannot be used together".to_owned());
        }
        match reading {
            SnapshotReading::Failed(text) => Err(text),
            SnapshotReading::Bytes(bytes) => {
                if bytes.len() == 0 {
                    return Err("Snapshot bytes cannot be empty".to_owned());
                }
                self.snapshot = Some(bytes);
                Ok(())
            },
        }
    }

    pub fn max_serialization_depth(&self) -> (depth: usize)
        ensures
            depth == self.max_serialization_depth,
    {
        self.max_serialization_depth
    }

    /// Set maximum serialization depth for Python<->JS transfers.
    pub fn set_max_serialization_depth(&mut self, depth: usize) -> (result: Result<(), String>)
        ensures
            match result {
                Ok(_) => depth > 0 && *final(self) == (RuntimeConfig {
                    max_serialization_depth: depth,
                    ..*old(self)
                }),
                Err(text) => depth == 0 && *final(self) == *old(self) && text@
                    == "max_serialization_depth must be a positive integer"@,
            },
            usable(*old(self)) ==> usable(*final(self)),
    {
        match validate_serialization_depth(depth) {
            Ok(()) => {
                self.max_serialization_depth = depth;
                Ok(())
            },
            Err(text) => Err(text),
        }
    }

    pub fn max_serialization_bytes(&self) -> (bytes: usize)
        ensures
            bytes == self.max_serialization_bytes,
    {
        self.max_serialization_bytes
    }

    /// Set maximum serialized byte size for Python<->JS transfers.
    pub fn set_max_serialization_bytes(&mut self, bytes: usize) -> (result: Result<(), String>)
        ensures
            match result {
                Ok(_) => bytes > 0 && *final(self) == (RuntimeConfig {
                    max_serialization_bytes: bytes,
                    ..*old(self)
                }),
                Err(text) => bytes == 0 && *final(self) == *old(self) && text@
                    == "max_serialization_bytes must be a positive integer"@,
            },
            usable(*old(self)) ==> usable(*final(self)),
    {
        match validate_serialization_bytes(bytes) {
            Ok(()) => {
                self.max_serialization_bytes = bytes;
                Ok(())
            },
            Err(text) => Err(text),
        }
    }

    pub fn force_kill_grace(&self) -> (grace: Option<Duration>)
        ensures
            grace == self.force_kill_grace,
    {
        self.force_kill_grace
    }

    /// Set the force-kill grace period; `None` disables it.
    pub fn set_force_kill_grace(&mut self, grace: Option<TimeoutReading>) -> (result: Result<
        (),
        String,
    >)
        ensures
            match result {
                Ok(_) => optional_span(grace) == Ok::<_, Seq<char>>(
                    span_view(final(self).force_kill_grace),
                ) && *final(self) == (RuntimeConfig {
                    force_kill_grace: final(self).force_kill_grace,
                    ..*old(self)
                }),
                Err(text) => optional_span(grace) == Err::<Option<nat>, _>(text@) && *final(self)
                    == *old(self),
            },
    {
        match RuntimeConfig::optional_duration(grace) {
            Ok(span) => {
                self.force_kill_grace = span;
                Ok(())
            },
            Err(text) => Err(text),
        }
    }
}

} // verus!
