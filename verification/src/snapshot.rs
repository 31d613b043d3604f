//! Building startup snapshots from host-supplied JavaScript.

use crate::error::{unit_view, ErrorView, RuntimeError, RuntimeResult};
use crate::startup::{script_views, ScriptView, StartupScript};
use vstd::prelude::*;

verus! {

/// Stubs out `console` before a snapshot is built.
pub const SNAPSHOT_DISABLE_CONSOLE_JS: &'static str = r#"
        (() => {
            const noop = () => {};
            const stub = new Proxy(Object.create(null), { get: () => noop });
            const existing = globalThis.console;
            if (typeof existing === "object" && existing !== null) {
                for (const key of Reflect.ownKeys(existing)) {
                    try { existing[key] = noop; } catch (_) {}
                }
                return;
            }
            globalThis.console = stub;
        })();
        "#;

#[derive(Debug)]
pub struct SnapshotBuilderConfig {
    pub bootstrap_script: Option<String>,
    pub enable_console: Option<bool>,
}

impl Clone for SnapshotBuilderConfig {
    fn clone(&self) -> (copy: Self)
        ensures
            copy == *self,
    {
        SnapshotBuilderConfig {
            bootstrap_script: match &self.bootstrap_script {
                Some(script) => Some(script.clone()),
                None => None,
            },
            enable_console: self.enable_console,
        }
    }
}

impl Default for SnapshotBuilderConfig {
    fn default() -> (config: Self)
        ensures
            config.bootstrap_script is None,
            config.enable_console == Some(false),
    {
        SnapshotBuilderConfig { bootstrap_script: None, enable_console: Some(false) }
    }
}

/// The scripts that a builder runs first, in order.
pub open spec fn first_scripts(config: SnapshotBuilderConfig) -> Seq<ScriptView> {
    let stub = if config.enable_console == Some(false) {
        seq![
            ScriptView {
                name: "<disable_console>"@,
                source: SNAPSHOT_DISABLE_CONSOLE_JS@,
            },
        ]
    } else {
        Seq::empty()
    };
    match config.bootstrap_script {
        Some(script) => stub.push(ScriptView { name: "<bootstrap>"@, source: script@ }),
        None => stub,
    }
}

/// Builds a startup snapshot from host-supplied JavaScript.
///
/// The engine's snapshot runtime is kept by whoever drives the builder; the builder
/// knows whether it is still there.
pub struct SnapshotBuilder {
    open: bool,
}

/// The error for a builder that was used up.
pub fn already_built() -> (err: RuntimeError)
    ensures
        err@ == ErrorView::Internal("Snapshot has already been built"@),
{
    RuntimeError::internal_text("Snapshot has already been built")
}

impl SnapshotBuilder {
    /// The snapshot runtime is still there.
    pub closed spec fn is_open(self) -> bool {
        self.open
    }

    /// A builder, with the scripts that are run first, in order.
    pub fn new(config: SnapshotBuilderConfig) -> (r: (SnapshotBuilder, Vec<StartupScript>))
        ensures
            r.0.is_open(),
            script_views(r.1@) == first_scripts(config),
    {
        let mut scripts: Vec<StartupScript> = Vec::new();
        if let Some(false) = config.enable_console {
            scripts.push(
                StartupScript {
                    name: "<disable_console>".to_owned(),
                    source: SNAPSHOT_DISABLE_CONSOLE_JS.to_owned(),
                },
            );
        }
        if let Some(source) = config.bootstrap_script {
            scripts.push(StartupScript { name: "<bootstrap>".to_owned(), source });
        }
        assert(script_views(scripts@) =~= first_scripts(config));
        (SnapshotBuilder { open: true }, scripts)
    }

    /// Whether a script may be executed.
    pub fn execute_script(&mut self) -> (result: RuntimeResult<()>)
        ensures
            unit_view(result) == if old(self).is_open() {
                Ok(())
            } else {
                Err(ErrorView::Internal("Snapshot has already been built"@))
            },
            final(self).is_open() == old(self).is_open(),
    {
        if self.open {
            Ok(())
        } else {
            Err(already_built())
        }
    }

    /// Whether the snapshot may be taken; the builder is used up by it.
    pub fn build(&mut self) -> (result: RuntimeResult<()>)
        ensures
            unit_view(result) == if old(self).is_open() {
                Ok(())
            } else {
                Err(ErrorView::Internal("Snapshot has already been built"@))
            },
            !final(self).is_open(),
    {
        let was_open: bool = self.open;
        self.open = false;
        if was_open {
            Ok(())
        } else {
            Err(already_built())
        }
    }
}

} // verus!
