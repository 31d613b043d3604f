use pydeno::binding::{bind_assignments, BoundObjectProperty};
use pydeno::config::RuntimeConfig;
use pydeno::double::Double;
use pydeno::js_value::JSValue;
use pydeno::loader::{
    load_failure, loaded, loader_error, module_specifier, module_type_from_request,
    namespace_failure, parsed_url, ErrorClass, LoadStep, LoadedStep, LoaderStage, ModuleType,
    PythonModuleLoader, RequestedModuleType, ResolveStep, ResolverOutcome,
};
use pydeno::ops::{
    map_pyerr, random_bits, require_task_locals, token_from_js, PythonOpMode, PythonOpRegistry,
    MAX_OP_TOKEN,
};
use pydeno::runtime::{
    bind_script, checked_mode, detect_mode, member_name, OpBinding, OpOutcome, OpStep, OpTarget,
};
use pydeno::snapshot::{SnapshotBuilder, SnapshotBuilderConfig};
use pydeno::startup::{
    bootstrap_script, capture_console, capture_console_drawn, console_capture_script,
    disable_console_script, startup_scripts_drawn,
};
use pydeno::config::ConsoleCallback;
use pydeno::error::RuntimeError;

fn float(value: f64) -> Double {
    Double { bits: value.to_bits() }
}

fn context_of(err: RuntimeError) -> String {
    match err {
        RuntimeError::Internal { context } => context,
        other => panic!("unexpected error {:?}", other),
    }
}

#[test]
fn tokens_are_random_and_fit_a_number() {
    let mut registry = PythonOpRegistry::new();
    let mut tokens = Vec::new();
    for _ in 0..20 {
        let token = registry.register("f", PythonOpMode::Sync, 1).unwrap();
        assert!(1 <= token && token <= MAX_OP_TOKEN);
        assert!(!tokens.contains(&token));
        tokens.push(token);
    }
    let mut spread = false;
    for token in &tokens {
        spread = spread || *token > 1_000_000;
    }
    assert!(spread);
}

#[test]
fn an_op_is_reached_only_while_it_is_exposed() {
    let mut registry = PythonOpRegistry::new();
    let token = registry.register("f", PythonOpMode::Sync, 8).unwrap();
    let raw = float(token as f64);
    assert_eq!(registry.lookup_entry(raw, PythonOpMode::Sync).unwrap_err(), "Unknown host op");
    assert!(registry.expose(token));
    let entry = registry.lookup_entry(raw, PythonOpMode::Sync).unwrap();
    assert_eq!((entry.id, entry.handler), (token, 8));
    assert_eq!(
        registry.lookup_entry(raw, PythonOpMode::Async).unwrap_err(),
        "Host op is not asynchronous"
    );
    assert!(registry.revoke(token));
    assert!(!registry.revoke(token));
    assert_eq!(registry.lookup_entry(raw, PythonOpMode::Sync).unwrap_err(), "Unknown host op");
    assert!(!registry.expose(token));
}

#[test]
fn a_drawn_token_is_not_taken_twice() {
    let mut registry = PythonOpRegistry::new();
    let token = registry.register_drawn(u64::MAX, "a", PythonOpMode::Async, 1);
    assert_eq!(token, Some(MAX_OP_TOKEN));
    assert_eq!(registry.register_drawn(u64::MAX, "b", PythonOpMode::Async, 2), None);
    assert_eq!(registry.register_drawn(0, "c", PythonOpMode::Async, 2), None);
}

#[test]
fn only_whole_numbers_are_tokens() {
    assert_eq!(token_from_js(float(5.0)), Some(5));
    assert_eq!(token_from_js(float(5.5)), None);
    assert_eq!(token_from_js(float(0.0)), None);
    assert_eq!(token_from_js(float(-1.0)), None);
    assert_eq!(token_from_js(float(f64::NAN)), None);
    assert_eq!(token_from_js(float(MAX_OP_TOKEN as f64)), Some(MAX_OP_TOKEN));
    assert_eq!(token_from_js(float(MAX_OP_TOKEN as f64 + 1.0)), None);
}

#[test]
fn python_errors_keep_their_class() {
    assert_eq!(map_pyerr(Some("ValueError".to_string()), "bad"), "\u{1}ValueError: bad");
    assert_eq!(map_pyerr(None, "bad"), "\u{1}Error: bad");
    assert!(matches!(require_task_locals(Some(3)), Ok(3)));
    assert_eq!(
        require_task_locals(None).unwrap_err(),
        "Async op requires asyncio context. Call eval_async() first to establish context."
    );
}

#[test]
fn modes_are_checked() {
    assert_eq!(detect_mode(true, None), PythonOpMode::Async);
    assert_eq!(detect_mode(false, Some(true)), PythonOpMode::Async);
    assert_eq!(detect_mode(false, Some(false)), PythonOpMode::Sync);
    assert_eq!(checked_mode("sync", PythonOpMode::Sync), Ok(PythonOpMode::Sync));
    assert_eq!(checked_mode("async", PythonOpMode::Async), Ok(PythonOpMode::Async));
    assert_eq!(
        checked_mode("sync", PythonOpMode::Async).unwrap_err(),
        "Handler is async but mode='sync'; use mode='async'"
    );
    assert_eq!(
        checked_mode("async", PythonOpMode::Sync).unwrap_err(),
        "Handler is sync but mode='async'; use mode='sync'"
    );
    assert_eq!(
        checked_mode("other", PythonOpMode::Sync).unwrap_err(),
        "Invalid mode 'other', expected 'sync' or 'async'"
    );
}

#[test]
fn a_binding_is_exposed_last() {
    assert_eq!(
        bind_script("add", PythonOpMode::Async, 12),
        "globalThis.add = (...args) => __host_op_async__(12, ...args); void 0;"
    );
    assert_eq!(member_name("tools", "add"), "tools.add");
    let mut binding =
        OpBinding::new(OpTarget::Global { name: "add".to_string() }, PythonOpMode::Sync);
    match binding.next(OpOutcome::Registered(12)) {
        OpStep::Install { script } => assert_eq!(
            script,
            "globalThis.add = (...args) => __host_op_sync__(12, ...args); void 0;"
        ),
        other => panic!("unexpected {:?}", other),
    }
    assert!(matches!(binding.next(OpOutcome::Installed), OpStep::Expose { op_id: 12 }));
    assert!(matches!(binding.next(OpOutcome::Exposed), OpStep::Done { op_id: 12 }));
    let mut failing =
        OpBinding::new(OpTarget::Global { name: "add".to_string() }, PythonOpMode::Sync);
    failing.next(OpOutcome::Registered(12));
    assert!(matches!(failing.next(OpOutcome::Failed), OpStep::Failed));
    assert!(matches!(failing.next(OpOutcome::Installed), OpStep::Failed));
    let mut token = OpBinding::new(OpTarget::Token, PythonOpMode::Sync);
    assert!(matches!(token.next(OpOutcome::Registered(3)), OpStep::Expose { op_id: 3 }));
}

#[test]
fn bound_objects_are_described() {
    let (assignments, tokens) = bind_assignments(vec![
        BoundObjectProperty::Value { key: "a".to_string(), value: JSValue::Int(1) },
        BoundObjectProperty::Op { key: "f".to_string(), op_id: 77, mode: PythonOpMode::Async },
    ]);
    assert_eq!(tokens, vec![77]);
    match assignments {
        JSValue::Array(items) => {
            match &items[0] {
                JSValue::Object(map) => {
                    assert!(matches!(map.get("kind"), Some(JSValue::String(s)) if s == "value"));
                    assert!(matches!(map.get("value"), Some(JSValue::Int(1))));
                }
                other => panic!("unexpected {:?}", other),
            }
            match &items[1] {
                JSValue::Object(map) => {
                    assert_eq!(map.key_at(0), "key");
                    assert!(matches!(map.get("mode"), Some(JSValue::String(s)) if s == "async"));
                    match map.get("op_id") {
                        Some(JSValue::Float(d)) => assert_eq!(d.bits, 77f64.to_bits()),
                        other => panic!("unexpected {:?}", other),
                    }
                }
                other => panic!("unexpected {:?}", other),
            }
        }
        other => panic!("unexpected {:?}", other),
    }
}

#[test]
fn specifiers_become_urls() {
    assert_eq!(module_specifier("main.js").unwrap(), "pydeno://runtime/main.js");
    assert_eq!(module_specifier("https://x.test/a.js").unwrap(), "https://x.test/a.js");
    assert_eq!(module_specifier("./b/../c.js").unwrap(), "pydeno://runtime/c.js");
    assert!(module_specifier("http://").is_err());
}

#[test]
fn static_modules_are_found() {
    let mut loader = PythonModuleLoader::new();
    loader.add_static_module("m".to_string(), "one".to_string());
    loader.add_static_module("m".to_string(), "two".to_string());
    for specifier in ["m", "static:m", "pydeno://runtime/m"] {
        match loader.resolve(specifier) {
            ResolveStep::Resolved(Ok(url)) => assert_eq!(url, "pydeno://static/m"),
            other => panic!("unexpected {:?}", other),
        }
    }
    match loader.load("pydeno://static/m") {
        LoadStep::Static(source) => assert_eq!(source, "two"),
        other => panic!("unexpected {:?}", other),
    }
}

#[test]
fn unknown_modules_are_denied() {
    let loader = PythonModuleLoader::new();
    match loader.resolve("other") {
        ResolveStep::Resolved(Err(err)) => {
            assert_eq!(err.class, ErrorClass::Generic);
            assert_eq!(
                err.message,
                "Module resolution denied for other. Did you call add_static_module()?"
            );
        }
        other => panic!("unexpected {:?}", other),
    }
    match loader.load("pydeno://static/other") {
        LoadStep::Denied(err) => assert_eq!(
            err.message,
            "Module loading denied for pydeno://static/other. Did you call set_module_loader()?"
        ),
        other => panic!("unexpected {:?}", other),
    }
}

#[test]
fn resolver_answers() {
    let mut loader = PythonModuleLoader::new();
    loader.set_resolver(4);
    loader.add_static_module("m".to_string(), "one".to_string());
    match loader.resolve("pydeno://runtime/m") {
        ResolveStep::CallResolver { resolver, specifier } => {
            assert_eq!((resolver, specifier.as_str()), (4, "m"))
        }
        other => panic!("unexpected {:?}", other),
    }
    assert_eq!(
        loader.resolve_with("m", ResolverOutcome::Text("https://x.test/y".to_string())).unwrap(),
        "https://x.test/y"
    );
    assert_eq!(loader.resolve_with("m", ResolverOutcome::NoneValue).unwrap(), "pydeno://static/m");
    let empty = loader.resolve_with("q", ResolverOutcome::Text(String::new())).unwrap_err();
    assert_eq!(
        empty.message,
        "Module resolution denied for q. Resolver returned empty string and no static module was found."
    );
    assert_eq!(loader.static_or_deny("static:m", "").unwrap(), "pydeno://static/m");
    let target = loader.resolver_target("m", ResolverOutcome::Text("HTTPS://x.test".to_string()));
    assert_eq!(target.unwrap(), "HTTPS://x.test");
    let answer = loader.resolve_with("m", ResolverOutcome::Text("HTTPS://x.test".to_string()));
    assert_eq!(answer.unwrap(), "https://x.test/");
    assert_eq!(parsed_url(Ok("a:b".to_string())).unwrap(), "a:b");
    let failed = parsed_url(Err("bad".to_string())).unwrap_err();
    assert_eq!((failed.class, failed.message.as_str()), (ErrorClass::UriError, "bad"));
    let raised = loader.resolve_with("q", ResolverOutcome::Raised("boom".to_string()));
    assert_eq!(raised.unwrap_err().message, "Module resolution failed for q: boom");
    let wrong = loader.resolve_with("q", ResolverOutcome::NotText("int".to_string())).unwrap_err();
    assert_eq!(wrong.class, ErrorClass::TypeError);
    let relative = loader.resolve_with("q", ResolverOutcome::Text("not a url".to_string()));
    assert_eq!(relative.unwrap_err().class, ErrorClass::UriError);
}

#[test]
fn loaders_are_called_with_their_task_locals() {
    let mut loader = PythonModuleLoader::new();
    loader.set_loader(6);
    loader.set_task_locals(7);
    assert!(matches!(
        loader.load("pydeno://x/y"),
        LoadStep::CallLoader { loader: 6, task_locals: Some(7) }
    ));
    loader.clear_task_locals();
    assert!(matches!(
        loader.load("pydeno://x/y"),
        LoadStep::CallLoader { loader: 6, task_locals: None }
    ));
    assert!(matches!(loaded(None, false), LoadedStep::Use));
    assert!(matches!(loaded(Some(7), true), LoadedStep::Await { task_locals: 7 }));
    assert!(matches!(loaded(None, true), LoadedStep::Refuse(_)));
    assert!(loader_error(LoaderStage::Call, "boom").message.contains("boom"));
    assert!(matches!(module_type_from_request(&RequestedModuleType::Json), ModuleType::Json));
    assert!(matches!(
        module_type_from_request(&RequestedModuleType::Unspecified),
        ModuleType::JavaScript
    ));
    assert_eq!(context_of(load_failure("a", "b")), "Failed to load module 'a': b");
    assert_eq!(context_of(namespace_failure("b")), "Failed to get module namespace: b");
}

#[test]
fn startup_scripts() {
    let mut config = RuntimeConfig::default();
    assert_eq!(disable_console_script(&config).unwrap().name, "<disable_console>");
    assert!(bootstrap_script(&config).is_none());
    config.bootstrap_script = Some("go()".to_string());
    assert_eq!(bootstrap_script(&config).unwrap().source, "go()");
    let mut registry = PythonOpRegistry::new();
    assert!(matches!(capture_console(&mut registry, &config), Ok(None)));
    config.on_console = Some(ConsoleCallback(31));
    config.enable_console = Some(true);
    assert!(disable_console_script(&config).is_none());
    let script = capture_console(&mut registry, &config).unwrap().unwrap();
    assert_eq!(script.name, "<console_capture>");
    let source = console_capture_script(55, false);
    assert!(source.contains("55"));
    assert!(source.contains("false"));
}

#[test]
fn a_console_is_captured_under_the_drawn_token() {
    let mut config = RuntimeConfig::default();
    let mut registry = PythonOpRegistry::new();
    assert!(capture_console_drawn(&mut registry, &config, 77).is_none());
    config.on_console = Some(ConsoleCallback(31));
    assert!(capture_console_drawn(&mut registry, &config, 0).is_none());
    assert!(registry.get_exposed(77).is_none());
    let script = capture_console_drawn(&mut registry, &config, 77).unwrap();
    assert_eq!(script.name, "<console_capture>");
    assert_eq!(script.source, console_capture_script(77, false));
    let entry = registry.get_exposed(77).unwrap();
    assert_eq!(entry.name, "__pydeno_console__");
    assert_eq!(entry.handler, 31);
    assert!(capture_console_drawn(&mut registry, &config, 77).is_none());
}

#[test]
fn random_bits_are_the_first_eight_bytes() {
    let bytes = [1, 2, 3, 4, 5, 6, 7, 0x80, 9, 10, 11, 12, 13, 14, 15, 16];
    assert_eq!(random_bits(&bytes), 0x8007_0605_0403_0201);
}

#[test]
fn startup_scripts_capture_the_console_or_fail() {
    let mut config = RuntimeConfig::default();
    config.bootstrap_script = Some("go()".to_string());
    let mut registry = PythonOpRegistry::new();
    let quiet = startup_scripts_drawn(&mut registry, &config, 0).unwrap();
    assert_eq!(quiet.len(), 2);
    config.on_console = Some(ConsoleCallback(31));
    let zero = startup_scripts_drawn(&mut registry, &config, 0);
    assert_eq!(context_of(zero.unwrap_err()), "No free op token was drawn");
    let scripts = startup_scripts_drawn(&mut registry, &config, 77).unwrap();
    assert_eq!(scripts[0].name, "<disable_console>");
    assert_eq!(scripts[1].source, console_capture_script(77, false));
    assert_eq!(scripts[2].source, "go()");
    assert_eq!(registry.get_exposed(77).unwrap().handler, 31);
    assert!(startup_scripts_drawn(&mut registry, &config, 77).is_err());
}

#[test]
fn a_snapshot_is_built_once() {
    let config = SnapshotBuilderConfig {
        bootstrap_script: Some("x".to_string()),
        enable_console: Some(false),
    };
    let copy = config.clone();
    assert_eq!(copy.bootstrap_script.as_deref(), Some("x"));
    assert_eq!(copy.enable_console, Some(false));
    let (mut builder, scripts) = SnapshotBuilder::new(config);
    assert_eq!(scripts.len(), 2);
    assert_eq!(scripts[1].source, "x");
    assert!(builder.execute_script().is_ok());
    assert!(builder.build().is_ok());
    assert_eq!(context_of(builder.execute_script().unwrap_err()), "Snapshot has already been built");
    assert!(builder.build().is_err());
}

#[test]
fn ops_do_not_disturb_each_other() {
    let mut registry = PythonOpRegistry::new();
    let first = registry.register("a", PythonOpMode::Sync, 1).unwrap();
    let second = registry.register("b", PythonOpMode::Async, 2).unwrap();
    registry.expose(first);
    registry.expose(second);
    registry.revoke(first);
    assert!(registry.get_exposed(first).is_none());
    assert_eq!(registry.get_exposed(second).unwrap().handler, 2);
}
