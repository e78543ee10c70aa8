//! A runtime-reconfigurable observability pipeline core.
//!
//! The crate models and verifies the decision logic of a structured-logging
//! and tracing subsystem: verbosity directives and the level filters they
//! produce, a hot-reload handle over the active filter, the single-assignment
//! registry that publishes that handle, the exactly-once installer state
//! machine, the JSON wire schema of emitted records, the record produced by
//! the panic bridge, and the boundary decisions of the reverse-proxy
//! collaborator.

pub mod directive;
pub mod filter;
pub mod install;
pub mod panic_bridge;
pub mod proxy;
pub mod record;
pub mod registry;
pub mod reload;
pub mod severity;

pub use filter::LevelFilter;
pub use panic_bridge::{FailureLocation, panic_record};
pub use proxy::{ErrorReply, forward_error_reply, proxy_target, request_path_and_query};
pub use record::{FieldValue, LogField, LogRecord, UtcTimestamp};
pub use install::{InitConfig, InitError, Installer, PipelinePlan};
pub use registry::ReloadRegistry;
pub use reload::{ReloadError, ReloadHandle};
pub use severity::Severity;
