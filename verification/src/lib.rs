//! Native shell logic for the JAMRA desktop application.
//!
//! The shell boots a background web server process, supervises its
//! lifecycle, and drives a system-tray menu. This crate holds the
//! decision logic of that shell — server status bookkeeping, the
//! shutdown escalation ladder, launch planning, and the small pieces
//! of formatting they need — each with a verified contract. The
//! process spawning, networking and GUI plumbing live outside, in the
//! unverified shell binary, which calls into this crate for every
//! decision it makes.

pub mod decimal;
pub mod launch;
pub mod platform;
pub mod shutdown;
pub mod status;
pub mod supervisor;
pub mod tray;

pub use status::ServerStatus;
