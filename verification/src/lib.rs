//! Supervisor for a sidecar process: locates a companion runtime and script,
//! launches the sidecar exactly once per host lifetime, discovers its port
//! through a filesystem handshake, and tears it down on shutdown.
//!
//! Every decision the supervisor makes — which paths to probe, which runtime
//! invocation to try next, when to give up waiting for the handshake file,
//! how to parse the announced port, when a second start is a no-op — is a
//! verified function over plain values. The host application performs the
//! actual filesystem probes, process spawns and sleeps, and feeds the
//! observations back in.

pub mod errors;
pub mod handshake;
pub mod interp;
pub mod launcher;
pub mod lifecycle;
pub mod paths;
pub mod port;
pub mod supervisor;
