//! A recording-session core for a desktop dictation app.
//!
//! - `device`: device descriptors and the all-or-nothing catalog check.
//! - `host`: the host audio subsystem as the recorder sees it (attached
//!   devices, their formats and claims).
//! - `engine`: the capture engine, one input stream per handle.
//! - `slot`: the shared slot that holds at most one session.
//! - `recorder`: the lifecycle manager and its commands.
//! - `laws`: properties of command sequences, proved from the contracts.
pub mod device;
pub mod engine;
pub mod error;
pub mod host;
pub mod laws;
pub mod recorder;
pub mod slot;
