//! The error taxonomy of the supervisor.

use vstd::prelude::*;

verus! {

/// Why a launch attempt failed.  Every variant is fatal to that attempt:
/// the embedding application must abort startup rather than present a
/// window pointed at nothing.
#[derive(Clone, Copy, Debug, PartialEq, Eq, Structural)]
pub enum StartupError {
    /// No port in the scan window could be bound.
    NoPortAvailable,
    /// The server executable was not found on disk.
    ExecutableNotFound,
    /// The operating system refused to spawn the child process.
    SpawnFailed,
    /// The server never accepted a connection within the attempt budget.
    ReadinessTimeout,
}

/// The outcome of one readiness probe attempt.
#[derive(Clone, Copy, Debug, PartialEq, Eq, Structural)]
pub enum ProbeResult {
    /// The server accepted a connection.
    Ready,
    /// No connection could be made; the caller may retry.
    NotReady,
    /// The probe target could not be parsed; a programmer error, never
    /// retried.
    MalformedTarget,
}

/// The outcome of pointing the window at the running server.  A failed
/// navigation is reported but is not fatal: the server keeps running,
/// and only the window is left on its placeholder.
#[derive(Clone, Copy, Debug, PartialEq, Eq, Structural)]
pub enum NavigationOutcome {
    Navigated,
    NavigationFailed,
}

} // verus!
