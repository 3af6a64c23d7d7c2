//! Backend library for fetching audio from a video-hosting platform by
//! orchestrating an external command-line downloader, with a single
//! cookie-based retry escalation when the platform's anti-bot defenses
//! trigger.
//!
//! The library holds the decision logic: URL validation against a host
//! allowlist, command-line argument construction, failure classification
//! from subprocess stderr text, the per-request download state machine,
//! and cache-path bookkeeping. The surrounding application performs the
//! actual process launches and file I/O and feeds the results back in as
//! plain values.

pub mod args;
pub mod classify;
pub mod encode;
pub mod errors;
pub mod laws;
pub mod locate;
pub mod meta;
pub mod paths;
pub mod session;
pub mod strutil;
pub mod urlcheck;
