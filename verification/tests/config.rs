use pydeno::config::{
    invalid_address, parse_socket_addr, ConfigArguments, ConsoleCallback, InspectorConfig,
    RuntimeConfig, SnapshotReading, TimeoutReading,
};
use pydeno::double::Double;
use pydeno::limits::{MAX_JS_BYTES, MAX_JS_DEPTH};
use pydeno::time::Duration;

fn float(value: f64) -> Double {
    Double { bits: value.to_bits() }
}

fn no_arguments() -> ConfigArguments {
    ConfigArguments {
        max_heap_size: None,
        initial_heap_size: None,
        bootstrap: None,
        timeout: None,
        enable_console: None,
        on_console: None,
        inspector: None,
        snapshot: None,
        max_serialization_depth: None,
        max_serialization_bytes: None,
        force_kill_grace: None,
    }
}

#[test]
fn test_default_config() {
    let config = RuntimeConfig::default();
    assert!(config.max_heap_size.is_none());
    assert!(config.initial_heap_size.is_none());
    assert!(config.execution_timeout.is_none());
    assert!(config.bootstrap_script.is_none());
    assert_eq!(config.enable_console, Some(false));
    assert!(config.on_console.is_none());
    assert!(config.inspector.is_none());
    assert!(config.snapshot.is_none());
    assert_eq!(config.max_serialization_depth, MAX_JS_DEPTH);
    assert_eq!(config.max_serialization_bytes, MAX_JS_BYTES);
}

#[test]
fn test_config_builder() {
    let mut config = RuntimeConfig::default();
    config.max_heap_size = Some(100 * 1024 * 1024);
    config.execution_timeout = Some(Duration::from_secs(30));

    assert_eq!(config.max_heap_size, Some(100 * 1024 * 1024));
    assert_eq!(config.execution_timeout, Some(Duration::from_secs(30)));
}

#[test]
fn test_inspector_config_defaults() {
    let inspector = InspectorConfig::default();
    assert_eq!(inspector.host(), "127.0.0.1");
    assert_eq!(inspector.port(), 9229);
    assert!(!inspector.wait_for_connection);
    assert!(!inspector.break_on_next_statement);
    assert!(inspector.target_url().is_none());
    assert!(inspector.display_name().is_none());
}

#[test]
fn test_runtime_config_with_inspector() {
    let mut inspector = InspectorConfig::default();
    inspector.set_wait_for_connection(true);
    inspector.set_break_on_next_statement(true);
    inspector.set_target_url(Some("module:main".to_string()));

    let config = RuntimeConfig {
        inspector: Some(inspector.clone()),
        ..RuntimeConfig::default()
    };

    let configured = config.inspector().expect("inspector config");
    assert!(configured.wait_for_connection());
    assert!(configured.break_on_next_statement());
    assert_eq!(configured.target_url(), Some("module:main".to_string()));
}

#[test]
fn rejects_negative_timeout() {
    let timeout = TimeoutReading::Seconds(float(-1.0));
    let err = RuntimeConfig::duration_from_py_timeout(timeout);
    assert!(err.is_err());
}

#[test]
fn rejects_infinite_timeout() {
    let timeout = TimeoutReading::Seconds(float(f64::INFINITY));
    let err = RuntimeConfig::duration_from_py_timeout(timeout);
    assert!(err.is_err());
}

#[test]
fn timeouts_are_seconds() {
    let half = RuntimeConfig::duration_from_py_timeout(TimeoutReading::Seconds(float(1.5)));
    assert_eq!(half.unwrap(), Duration::from_millis(1500));
    let whole = RuntimeConfig::duration_from_py_timeout(TimeoutReading::WholeSeconds(7));
    assert_eq!(whole.unwrap(), Duration::from_secs(7));
    let signed = RuntimeConfig::duration_from_py_timeout(TimeoutReading::SignedSeconds(-7));
    assert_eq!(signed.unwrap_err(), "Timeout cannot be negative");
    let delta = RuntimeConfig::duration_from_py_timeout(TimeoutReading::TimeDelta(float(0.25)));
    assert_eq!(delta.unwrap(), Duration::from_millis(250));
    let other = RuntimeConfig::duration_from_py_timeout(TimeoutReading::Unsupported);
    assert_eq!(
        other.unwrap_err(),
        "Timeout must be a number (seconds) or datetime.timedelta object"
    );
}

#[test]
fn arguments_make_a_config() {
    let config = RuntimeConfig::new(ConfigArguments {
        max_heap_size: Some(10),
        bootstrap: Some("1;".to_string()),
        timeout: Some(TimeoutReading::WholeSeconds(2)),
        enable_console: Some(true),
        on_console: Some((9, true)),
        max_serialization_depth: Some(4),
        max_serialization_bytes: Some(5),
        force_kill_grace: Some(TimeoutReading::Seconds(float(0.1))),
        ..no_arguments()
    })
    .unwrap();
    assert_eq!(config.max_heap_size(), Some(10));
    assert_eq!(config.bootstrap(), Some("1;".to_string()));
    assert_eq!(config.timeout(), Some(Duration::from_secs(2)));
    assert_eq!(config.enable_console(), Some(true));
    assert_eq!(config.on_console(), Some(ConsoleCallback(9)));
    assert_eq!(config.max_serialization_depth(), 4);
    assert_eq!(config.max_serialization_bytes(), 5);
    assert_eq!(config.force_kill_grace(), Some(Duration::from_millis(100)));
    let limits = config.serialization_limits();
    assert_eq!((limits.max_depth, limits.max_bytes), (4, 5));
}

#[test]
fn arguments_that_do_not_fit_are_refused() {
    let both = RuntimeConfig::new(ConfigArguments {
        bootstrap: Some("1;".to_string()),
        snapshot: Some(SnapshotReading::Bytes(vec![1])),
        ..no_arguments()
    });
    assert_eq!(both.unwrap_err(), "snapshot and bootstrap cannot be used together");
    let empty = RuntimeConfig::new(ConfigArguments {
        snapshot: Some(SnapshotReading::Bytes(vec![])),
        ..no_arguments()
    });
    assert_eq!(empty.unwrap_err(), "Snapshot bytes cannot be empty");
    let depth = RuntimeConfig::new(ConfigArguments {
        max_serialization_depth: Some(0),
        ..no_arguments()
    });
    assert_eq!(depth.unwrap_err(), "max_serialization_depth must be a positive integer");
    let bytes = RuntimeConfig::new(ConfigArguments {
        max_serialization_bytes: Some(0),
        ..no_arguments()
    });
    assert_eq!(bytes.unwrap_err(), "max_serialization_bytes must be a positive integer");
    assert!(RuntimeConfig::new(ConfigArguments {
        on_console: Some((9, false)),
        ..no_arguments()
    })
    .is_err());
}

#[test]
fn setters_check_too() {
    let mut config = RuntimeConfig::default();
    assert!(config.set_snapshot(Some(SnapshotReading::Bytes(vec![1, 2]))).is_ok());
    assert_eq!(config.snapshot(), Some(vec![1, 2]));
    assert!(config.set_bootstrap("x".to_string()).is_err());
    assert!(config.set_snapshot(None).is_ok());
    assert!(config.set_bootstrap("x".to_string()).is_ok());
    assert!(config.set_snapshot(Some(SnapshotReading::Failed("no".to_string()))).is_err());
    assert!(config.set_max_serialization_depth(0).is_err());
    assert!(config.set_max_serialization_depth(3).is_ok());
    assert!(config.set_max_serialization_bytes(0).is_err());
    assert!(config.set_max_serialization_bytes(8).is_ok());
    assert!(config.set_timeout(TimeoutReading::Unsupported).is_err());
    assert!(config.set_timeout(TimeoutReading::WholeSeconds(1)).is_ok());
    assert_eq!(config.timeout(), Some(Duration::from_secs(1)));
    assert!(config.set_force_kill_grace(None).is_ok());
    assert!(config.set_on_console(Some((3, true))).is_ok());
    config.set_max_heap_size(11);
    config.set_initial_heap_size(7);
    assert_eq!((config.max_heap_size(), config.initial_heap_size()), (Some(11), Some(7)));
    config.set_inspector(None);
    assert!(config.inspector().is_none());
}

#[test]
fn inspector_addresses() {
    assert_eq!(parse_socket_addr("127.0.0.1", 80).unwrap(), "127.0.0.1:80");
    assert_eq!(parse_socket_addr("::1", 80).unwrap(), "[::1]:80");
    assert_eq!(parse_socket_addr("[::1]", 80).unwrap(), "[::1]:80");
    assert_eq!(parse_socket_addr(" ", 80).unwrap_err(), "Inspector host cannot be empty");
    assert_eq!(
        parse_socket_addr("localhost", 0).unwrap_err(),
        "Inspector port must be a positive integer"
    );
    assert_eq!(invalid_address("a:1", "bad"), "Invalid inspector address 'a:1': bad");
    let inspector = InspectorConfig::default();
    assert_eq!(inspector.endpoint(), "127.0.0.1:9229");
}

#[test]
fn an_inspector_config_is_shown() {
    let mut inspector = InspectorConfig::default();
    inspector.set_target_url(Some("a\"b".to_string()));
    assert_eq!(
        inspector.repr(),
        "InspectorConfig(host=\"127.0.0.1\", port=9229, wait_for_connection=false, break_on_next_statement=false, target_url=Some(\"a\\\"b\"), display_name=None)"
    );
}

#[test]
fn an_inspector_config_is_shown_with_given_texts() {
    let inspector = InspectorConfig::default();
    assert_eq!(
        inspector.repr_with("h", None, Some("d".to_string())),
        "InspectorConfig(host=h, port=9229, wait_for_connection=false, break_on_next_statement=false, target_url=None, display_name=Some(d))"
    );
}

#[test]
fn an_endpoint_keeps_its_scope() {
    let scoped = InspectorConfig::new("fe80::1".to_string(), 1, 9229, false, false, None, None);
    assert_eq!(scoped.endpoint(), "[fe80::1%1]:9229");
    assert_eq!(scoped.host(), "fe80::1");
    assert_eq!(scoped.socket_addr(), ("fe80::1".to_string(), 1, 9229));
    let plain = InspectorConfig::new("fe80::1".to_string(), 0, 9229, false, false, None, None);
    assert_eq!(plain.endpoint(), "[fe80::1]:9229");
    assert!(plain != scoped);
    assert!(scoped.clone() == scoped);
    let mut named = scoped.clone();
    named.set_display_name(Some("main".to_string()));
    assert!(named != scoped);
}
