pub mod bigint;
pub mod binding;
pub mod command_laws;
pub mod commands;
pub mod config;
pub mod config_laws;
pub mod conversion;
pub mod core_state;
pub mod dispatcher;
pub mod double;
pub mod engine;
pub mod error;
pub mod frame_laws;
pub mod functions;
pub mod handle;
pub mod host_laws;
pub mod job_laws;
pub mod jobs;
pub mod js_value;
pub mod lifecycle_laws;
pub mod limit_laws;
pub mod limits;
pub mod loader;
pub mod module_laws;
pub mod number_laws;
pub mod object_laws;
pub mod ops;
pub mod proxies;
pub mod py_import;
pub mod py_import_laws;
pub mod py_value_laws;
pub mod report_laws;
pub mod reports;
pub mod round_trip;
pub mod runtime;
pub mod snapshot;
pub mod startup;
pub mod stats;
pub mod stream;
pub mod stream_laws;
pub mod termination;
pub mod text;
pub mod threads;
pub mod time;
pub mod transfer_laws;
pub mod v8_export;
pub mod v8_import;
pub mod v8_import_laws;
pub mod v8_round_trip;
pub mod v8_value_laws;
pub mod view_laws;
pub mod watch_laws;
pub mod wire;
pub mod wording_laws;
