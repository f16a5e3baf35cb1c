//! A local sidecar-process supervisor.
//!
//! Given a bundled server executable, the application must pick a free
//! loopback port, launch the executable as a child process bound to that
//! port, wait until the server accepts connections, hand the resulting URL
//! to the window, and make sure the child is killed exactly once when the
//! window goes away.
//!
//! This crate holds the decision logic of that supervisor, verified:
//! the port-scan policy, the probe-target parsing and retry schedule, the
//! URL and environment construction for the launch, and the supervisor
//! state machine with its stop/start race rules.  The operating-system
//! calls themselves (binding sockets, spawning the process, opening probe
//! connections) are performed by the embedding application, which drives
//! these state machines and reports each outcome back to them.

pub mod allocator;
pub mod endpoint;
pub mod errors;
pub mod launcher;
pub mod numtext;
pub mod prober;
pub mod supervisor;
pub mod target;

pub use allocator::PortScan;
pub use endpoint::Endpoint;
pub use endpoint::Scheme;
pub use errors::NavigationOutcome;
pub use errors::ProbeResult;
pub use errors::StartupError;
pub use prober::ProbeSchedule;
pub use prober::ProbeStep;
pub use supervisor::ServerHandle;
pub use supervisor::Supervisor;
pub use supervisor::SupervisorState;
pub use target::parse_probe_target;
pub use target::ProbeTarget;
