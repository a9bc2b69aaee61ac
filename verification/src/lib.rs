//! Native backend core for a web-view desktop shell: a streaming HTTP fetch
//! bridge (request validation, per-request event sequencing, cancellation,
//! and an in-flight registry), plus the small utilities the shell exposes
//! (temporary preview-file naming, log-level resolution).

pub mod bridge;
pub mod events;
pub mod logging;
pub mod preview;
pub mod request;
