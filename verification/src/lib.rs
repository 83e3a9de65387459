//! Native acceleration bridge core: a verified system-telemetry snapshot
//! service together with the build-time link-configuration rules that let a
//! host runtime load the compiled extension.

pub mod link;
pub mod profiler;
pub mod telemetry;
mod source;

pub use profiler::SystemProfiler;
pub use telemetry::ProfilerError;
pub use telemetry::TelemetrySnapshot;
