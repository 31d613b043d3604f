//! The scripts that an isolate runs before any guest code.

use crate::config::{ConsoleCallback, RuntimeConfig};
use crate::error::{ErrorView, RuntimeError, RuntimeResult};
use crate::ops::{
    is_token, token_bits, OpToken, OpsView, PythonOpEntry, PythonOpMode, PythonOpRegistry,
};
use crate::text::{decimal, push_decimal};
use vstd::prelude::*;

verus! {

/// Stubs out `console` (the engine enables it by default).
pub const DISABLE_CONSOLE_JS: &'static str = r#"
(() => {
    const noop = () => {};
    const stub = new Proxy(Object.create(null), { get: () => noop });
    const existing = globalThis.console;
    if (typeof existing === "object" && existing !== null) {
        for (const key of Reflect.ownKeys(existing)) {
            try { existing[key] = noop; } catch (_) {} // ignore non-writable properties
        }
        return;
    }
    globalThis.console = stub;
})();
"#;

/// Routes console output to the `on_console` op: up to the op's token.
pub const CONSOLE_CAPTURE_HEAD_JS: &'static str = r#"
(() => {
  const OP_ID = "#;

/// Routes console output to the `on_console` op: from the token to whether the
/// previous console is called too.
pub const CONSOLE_CAPTURE_MIDDLE_JS: &'static str = r#";
  const PASSTHROUGH = "#;

/// Routes console output to the `on_console` op: the rest.
pub const CONSOLE_CAPTURE_TAIL_JS: &'static str = r#";
  const forward = globalThis.__host_op_sync__;
  const previous = globalThis.console;
  const target = {};
  for (const level of ["log", "info", "warn", "error", "debug", "trace"]) {
    const prior =
      PASSTHROUGH &&
      previous !== null &&
      typeof previous === "object" &&
      typeof previous[level] === "function"
        ? previous[level].bind(previous)
        : null;
    target[level] = (...args) => {
      try {
        forward(OP_ID, level, args);
      } catch (_) {
        // Unrepresentable arguments degrade to strings; a console call must
        // never throw into (or break) the script that made it.
        try {
          forward(
            OP_ID,
            level,
            args.map((a) => {
              try {
                return String(a);
              } catch (_) {
                return "[unrepresentable]";
              }
            }),
          );
        } catch (_) {}
      }
      if (prior !== null) {
        prior(...args);
      }
    };
  }
  globalThis.console = target;
})();
"#;

/// The script that routes console output to the op with this token.
pub open spec fn capture_script(op_id: u64, passthrough: bool) -> Seq<char> {
    CONSOLE_CAPTURE_HEAD_JS@ + decimal(op_id as nat) + CONSOLE_CAPTURE_MIDDLE_JS@ + (if passthrough {
        "true"@
    } else {
        "false"@
    }) + CONSOLE_CAPTURE_TAIL_JS@
}

/// A script with the name it is reported under.
#[derive(Debug)]
pub struct StartupScript {
    pub name: String,
    pub source: String,
}

#[verifier::ext_equal]
pub struct ScriptView {
    pub name: Seq<char>,
    pub source: Seq<char>,
}

impl View for StartupScript {
    type V = ScriptView;

    open spec fn view(&self) -> ScriptView {
        ScriptView { name: self.name@, source: self.source@ }
    }
}

/// The script that stubs the console out, unless it is enabled.
pub fn disable_console_script(config: &RuntimeConfig) -> (script: Option<StartupScript>)
    ensures
        match script {
            Some(s) => config.enable_console == Some(false) && s@ == (ScriptView {
                name: "<disable_console>"@,
                source: DISABLE_CONSOLE_JS@,
            }),
            None => config.enable_console != Some(false),
        },
{
    match config.enable_console {
        Some(false) => Some(
            StartupScript {
                name: "<disable_console>".to_owned(),
                source: DISABLE_CONSOLE_JS.to_owned(),
            },
        ),
        _ => None,
    }
}

/// The script that routes console output to the op with this token.
pub fn console_capture_script(op_id: OpToken, passthrough: bool) -> (source: String)
    ensures
        source@ == capture_script(op_id, passthrough),
{
    let mut source = CONSOLE_CAPTURE_HEAD_JS.to_owned();
    push_decimal(&mut source, op_id);
    source.append(CONSOLE_CAPTURE_MIDDLE_JS);
    if passthrough {
        source.append("true");
    } else {
        source.append("false");
    }
    source.append(CONSOLE_CAPTURE_TAIL_JS);
    source
}

/// Registers and exposes the console callback as an op, and returns the script that
/// routes console output to it; the previous console is called too where it is
/// enabled. The script closes over the token, so exposing it here is the bind step.
/// `None` (and no change) exactly when there is no callback; the error (and no change)
/// only when there is one and no token could be drawn, which no clause rules out.
/// [`capture_console_drawn`] says what comes of each draw.
pub fn capture_console(registry: &mut PythonOpRegistry, config: &RuntimeConfig) -> (result:
    RuntimeResult<Option<StartupScript>>)
    ensures
        match result {
            Ok(script) => console_captured(
                old(registry)@,
                *config,
                final(registry)@,
                script_view(script),
            ),
            Err(err) => config.on_console is Some && err@ == no_token_error() && final(registry)@
                == old(registry)@,
        },
{
    if config.on_console.is_none() {
        return Ok(None);
    }
    match registry.draw() {
        Some(raw) => Ok(capture_console_drawn(registry, config, raw)),
        None => Err(no_token()),
    }
}

/// Registers the console callback under the token that random bits amount to,
/// exposes it, and returns the script that routes console output to it. `None` (and
/// no change) exactly when there is no callback, or the token is zero or taken.
pub fn capture_console_drawn(
    registry: &mut PythonOpRegistry,
    config: &RuntimeConfig,
    raw: u64,
) -> (script: Option<StartupScript>)
    ensures
        match script {
            Some(s) => {
                &&& config.on_console is Some
                &&& old(registry)@.accepts(raw)
                &&& s@ == capture_view(token_bits(raw), *config)
                &&& exists|entry: PythonOpEntry|
                    {
                        &&& entry.id == token_bits(raw)
                        &&& is_console_op(entry, *config)
                        &&& final(registry)@ == (#[trigger] old(registry)@.registered(
                            entry,
                        )).exposing(entry.id)
                    }
            },
            None => (config.on_console is None || !old(registry)@.accepts(raw))
                && final(registry)@ == old(registry)@,
        },
{
    let callback: ConsoleCallback = match config.on_console {
        Some(callback) => callback,
        None => return None,
    };
    let passthrough: bool = match config.enable_console {
        Some(true) => true,
        _ => false,
    };
    match registry.register_drawn(raw, "__pydeno_console__", PythonOpMode::Sync, callback.0) {
        Some(op_id) => {
            let _ = registry.expose(op_id);
            Some(
                StartupScript {
                    name: "<console_capture>".to_owned(),
                    source: console_capture_script(op_id, passthrough),
                },
            )
        },
        None => None,
    }
}

/// The bootstrap script, which runs last so that its output is captured too.
pub fn bootstrap_script(config: &RuntimeConfig) -> (script: Option<StartupScript>)
    ensures
        match script {
            Some(s) => config.bootstrap_script is Some && s@ == (ScriptView {
                name: "<bootstrap>"@,
                source: config.bootstrap_script->0@,
            }),
            None => config.bootstrap_script is None,
        },
{
    match &config.bootstrap_script {
        Some(source) => Some(
            StartupScript { name: "<bootstrap>".to_owned(), source: source.clone() },
        ),
        None => None,
    }
}

pub open spec fn script_views(scripts: Seq<StartupScript>) -> Seq<ScriptView> {
    scripts.map_values(|script: StartupScript| script@)
}

/// An optional script by its view.
pub open spec fn script_view(script: Option<StartupScript>) -> Option<ScriptView> {
    match script {
        Some(s) => Some(s@),
        None => None,
    }
}

/// The op that the console callback is registered as.
pub open spec fn is_console_op(entry: PythonOpEntry, config: RuntimeConfig) -> bool {
    &&& entry.name@ == "__pydeno_console__"@
    &&& entry.mode == PythonOpMode::Sync
    &&& entry.handler == (config.on_console->0).0
}

/// The script that routes console output to the op with this token, with its name.
pub open spec fn capture_view(op_id: u64, config: RuntimeConfig) -> ScriptView {
    ScriptView {
        name: "<console_capture>"@,
        source: capture_script(op_id, config.enable_console == Some(true)),
    }
}

/// The error for a callable that no token was drawn for.
pub open spec fn no_token_error() -> ErrorView {
    ErrorView::Internal("No free op token was drawn"@)
}

pub(crate) fn no_token() -> (err: RuntimeError)
    ensures
        err@ == no_token_error(),
{
    RuntimeError::internal_text("No free op token was drawn")
}

/// The console callback was registered and exposed as an op, and its script made; or
/// there is no callback, and nothing changed.
pub open spec fn console_captured(
    before: OpsView,
    config: RuntimeConfig,
    after: OpsView,
    script: Option<ScriptView>,
) -> bool {
    match script {
        Some(s) => config.on_console is Some && exists|entry: PythonOpEntry|
            {
                &&& is_token(entry.id)
                &&& !before.handlers.contains_key(entry.id)
                &&& is_console_op(entry, config)
                &&& after == (#[trigger] before.registered(entry)).exposing(entry.id)
                &&& s == capture_view(entry.id, config)
            },
        None => config.on_console is None && after == before,
    }
}

/// The scripts in the order in which they run: the console is stubbed out first, then
/// captured (so that the callback still sees its output), and the bootstrap script
/// comes last (so that its output is captured too).
pub open spec fn startup_order(config: RuntimeConfig, captured: Option<ScriptView>) -> Seq<
    ScriptView,
> {
    (if config.enable_console == Some(false) {
        seq![ScriptView { name: "<disable_console>"@, source: DISABLE_CONSOLE_JS@ }]
    } else {
        Seq::empty()
    }) + (match captured {
        Some(s) => seq![s],
        None => Seq::empty(),
    }) + (match config.bootstrap_script {
        Some(source) => seq![ScriptView { name: "<bootstrap>"@, source: source@ }],
        None => Seq::empty(),
    })
}

/// Puts the scripts in the order in which they run.
fn order_scripts(config: &RuntimeConfig, captured: Option<StartupScript>) -> (scripts: Vec<
    StartupScript,
>)
    ensures
        script_views(scripts@) == startup_order(*config, script_view(captured)),
{
    let ghost shown = script_view(captured);
    let mut scripts: Vec<StartupScript> = Vec::new();
    if let Some(script) = disable_console_script(config) {
        scripts.push(script);
    }
    if let Some(script) = captured {
        scripts.push(script);
    }
    if let Some(script) = bootstrap_script(config) {
        scripts.push(script);
    }
    assert(script_views(scripts@) =~= startup_order(*config, shown));
    scripts
}

/// The scripts run in order, and the console is captured among them exactly when
/// there is a callback for it.
pub open spec fn scripts_made(
    before: OpsView,
    config: RuntimeConfig,
    after: OpsView,
    scripts: Seq<ScriptView>,
) -> bool {
    exists|captured: Option<ScriptView>|
        {
            &&& #[trigger] console_captured(before, config, after, captured)
            &&& captured is Some <==> config.on_console is Some
            &&& scripts == startup_order(config, captured)
        }
}

/// The scripts that an isolate runs before any guest code, in order. The error (and no
/// change) only when there is a console callback and no token could be drawn for it;
/// [`startup_scripts_drawn`] says what comes of each draw.
pub fn startup_scripts(registry: &mut PythonOpRegistry, config: &RuntimeConfig) -> (result:
    RuntimeResult<Vec<StartupScript>>)
    ensures
        match result {
            Ok(scripts) => scripts_made(
                old(registry)@,
                *config,
                final(registry)@,
                script_views(scripts@),
            ),
            Err(err) => config.on_console is Some && err@ == no_token_error() && final(registry)@
                == old(registry)@,
        },
{
    let captured: Option<StartupScript> = match capture_console(registry, config) {
        Ok(captured) => captured,
        Err(err) => return Err(err),
    };
    assert(console_captured(old(registry)@, *config, registry@, script_view(captured)));
    Ok(order_scripts(config, captured))
}

/// The scripts that an isolate runs before any guest code, in order, with a console
/// callback under the token that random bits amount to. The error (and no change)
/// exactly when there is a callback and that token is zero or taken.
pub fn startup_scripts_drawn(
    registry: &mut PythonOpRegistry,
    config: &RuntimeConfig,
    raw: u64,
) -> (result: RuntimeResult<Vec<StartupScript>>)
    ensures
        match result {
            Ok(scripts) => {
                &&& config.on_console is Some ==> old(registry)@.accepts(raw)
                &&& scripts_made(
                    old(registry)@,
                    *config,
                    final(registry)@,
                    script_views(scripts@),
                )
                &&& script_views(scripts@) == startup_order(
                    *config,
                    if config.on_console is Some {
                        Some(capture_view(token_bits(raw), *config))
                    } else {
                        None
                    },
                )
            },
            Err(err) => {
                &&& config.on_console is Some
                &&& !old(registry)@.accepts(raw)
                &&& err@ == no_token_error()
                &&& final(registry)@ == old(registry)@
            },
        },
{
    let captured: Option<StartupScript> = capture_console_drawn(registry, config, raw);
    if captured.is_none() && config.on_console.is_some() {
        return Err(no_token());
    }
    assert(console_captured(old(registry)@, *config, registry@, script_view(captured)));
    Ok(order_scripts(config, captured))
}

} // verus!
