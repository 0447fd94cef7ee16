//! Log processor that writes OpenTelemetry log records to Linux user_events
//! tracepoints, gated by the per-tracepoint listener flags.
pub mod provider;
pub mod record;
pub mod event_name;
pub mod exporter;
pub mod processor;
