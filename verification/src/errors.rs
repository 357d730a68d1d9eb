//! Error taxonomy of the supervisor.

use vstd::prelude::*;

verus! {

/// Why a `start` attempt failed as a whole.
#[derive(Clone, Copy, Debug, PartialEq, Eq, Structural)]
pub enum StartError {
    /// No candidate script layout matched on disk. The candidate list that was
    /// probed is the one `paths::script_candidates` yields for the build mode.
    PathResolution,
    /// Packaged mode requires the bundled interpreter; it was absent. Fatal,
    /// no fallback: a packaged deployment must be self-contained.
    RuntimeNotFound,
    /// The operating system refused to create the process for every entry of
    /// the fallback chain.
    Launch,
    /// The child never wrote the handshake file within the timeout budget.
    HandshakeTimeout,
}

/// Why waiting for or reading the handshake content failed.
#[derive(Clone, Copy, Debug, PartialEq, Eq, Structural)]
pub enum HandshakeError {
    /// The timeout budget elapsed without the file appearing.
    Timeout,
    /// The file appeared but its content is not a decimal port number.
    Parse,
}

/// Why a direct port query failed.
#[derive(Clone, Copy, Debug, PartialEq, Eq, Structural)]
pub enum PortReadError {
    /// No handshake file could be read: the query came before any successful
    /// start, or the file was deleted externally.
    Unavailable,
    /// The file was read but its content is not a decimal port number.
    Parse,
}

/// Failure of the termination command that cleanup issues. Cleanup swallows
/// it: no verified function ever returns this variant to a caller.
#[derive(Clone, Copy, Debug, PartialEq, Eq, Structural)]
pub enum CleanupError {
    CommandFailed,
}

} // verus!
