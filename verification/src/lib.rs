//! A verified core for spawning and tracking child processes: permission
//! gating with dangerous-environment escalation, command assembly, stdio
//! resolution, control-channel and auxiliary-pipe wiring, a child registry
//! with exactly-once wait semantics, exit-status translation, and blocking
//! capture — each stated in contracts and proved. The OS work itself
//! (spawning, waiting, signalling, descriptor duplication) stays outside,
//! driven by the plans and decisions this crate computes.

pub mod command;
pub mod errors;
pub mod exit_status;
pub mod json_decode;
pub mod launcher;
pub mod legacy;
pub mod permissions;
pub mod registry;
pub mod signals;
pub mod stdio;
pub mod strutil;
pub mod sync_capture;
pub mod wiring;
