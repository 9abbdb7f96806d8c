//! A MicroVM code-execution orchestrator: job validation, boot-artifact
//! resolution with single-flight builds, per-VM network leases, and the
//! per-request state machine that starts a VM, reaches its agent and relays the
//! agent's output frames to the caller.


pub mod artifact;
pub mod cache;
pub mod error;
pub mod frame;
pub mod job;
pub mod language;
pub mod network;
pub mod session;
