//! The supervisor: the owner of the one child process, and the state
//! machine that start and stop drive.
//!
//! A run goes `Idle -> Starting` when startup begins, then `-> Running`
//! when the readiness probe succeeds, or `-> Failed` when any stage of
//! startup fails.  `Running -> Stopped` when the window goes away.
//! `Stopped` and `Failed` are terminal: startup cannot be begun twice on
//! the same supervisor.
//!
//! The embedding application performs the spawns and the kills; every
//! method here that decides a child must die hands its [`ServerHandle`]
//! back exactly once, so a handle can never be signalled twice and never
//! stays stored after the decision.  A stop that arrives while startup is
//! still in flight marks the supervisor, and the startup events that land
//! afterwards see the mark and surrender their freshly spawned child
//! instead of letting it leak.

use vstd::prelude::*;

use crate::endpoint::Endpoint;
use crate::errors::NavigationOutcome;
use crate::errors::StartupError;

verus! {

/// The identifier of the one launched server process.  The embedding
/// application keeps the operating-system handle itself and kills it
/// when, and only when, a method here returns the `ServerHandle`.
#[derive(Clone, Copy, Debug, PartialEq, Eq, Structural)]
pub struct ServerHandle {
    pub pid: u32,
}

/// Where the supervisor stands in its run.
#[derive(Clone, Copy, Debug, PartialEq, Eq, Structural)]
pub enum SupervisorState {
    /// Startup has not begun.
    Idle,
    /// Startup is in flight: allocating, spawning or probing.
    Starting,
    /// The server is up and the window has its URL.
    Running,
    /// The run is over; the child, if one was ever spawned, was handed
    /// out for termination.
    Stopped,
    /// A startup stage failed; terminal.
    Failed,
}

/// The supervisor's whole state: at most one live child per run, and once
/// a handle is taken or killed it is never reused.
pub struct Supervisor {
    pub state: SupervisorState,
    pub handle: Option<ServerHandle>,
    pub endpoint: Option<Endpoint>,
    pub error: Option<StartupError>,
    pub stop_requested: bool,
}

impl Supervisor {
    /// What every reachable supervisor satisfies: a handle is stored only
    /// while a run is under way, a stop can only be pending while startup
    /// is in flight, and an error is recorded exactly on failure.
    pub open spec fn wf(self) -> bool {
        &&& match self.state {
            SupervisorState::Idle => self.handle is None && !self.stop_requested
                && self.endpoint is None,
            SupervisorState::Starting => true,
            SupervisorState::Running => self.handle is Some && !self.stop_requested,
            SupervisorState::Stopped => self.handle is None,
            SupervisorState::Failed => self.handle is None,
        }
        &&& (self.error is Some <==> self.state == SupervisorState::Failed)
        &&& (self.stop_requested ==> self.state == SupervisorState::Starting)
    }

    /// The supervisor before any event.
    pub open spec fn spec_new() -> Supervisor {
        Supervisor {
            state: SupervisorState::Idle,
            handle: None,
            endpoint: None,
            error: None,
            stop_requested: false,
        }
    }

    /// What stop does: take and surrender the handle of a running or
    /// still-starting child, mark an in-flight startup as stopped, and do
    /// nothing at all in every other state.
    pub open spec fn spec_stop(self) -> (Supervisor, Option<ServerHandle>) {
        match self.state {
            SupervisorState::Running => (
                Supervisor { state: SupervisorState::Stopped, handle: None, ..self },
                self.handle,
            ),
            SupervisorState::Starting => (
                Supervisor { handle: None, stop_requested: true, ..self },
                self.handle,
            ),
            _ => (self, None),
        }
    }

    /// What the spawn event does: a child spawned after a stop has
    /// already fired is surrendered at once and the run ends; otherwise
    /// the handle is stored for the rest of the run.
    pub open spec fn spec_on_spawned(self, h: ServerHandle) -> (Supervisor, Option<ServerHandle>) {
        if self.stop_requested {
            (
                Supervisor { state: SupervisorState::Stopped, handle: None, stop_requested: false, ..self },
                Some(h),
            )
        } else {
            (Supervisor { handle: Some(h), ..self }, None)
        }
    }

    /// What probe success does: the run becomes `Running` with the
    /// endpoint recorded, unless a stop fired meanwhile, in which case
    /// whatever child is still held is surrendered and the run ends.
    pub open spec fn spec_on_ready(self, ep: Endpoint) -> (Supervisor, Option<ServerHandle>) {
        if self.stop_requested {
            (
                Supervisor { state: SupervisorState::Stopped, handle: None, stop_requested: false, ..self },
                self.handle,
            )
        } else {
            (
                Supervisor { state: SupervisorState::Running, endpoint: Some(ep), ..self },
                None,
            )
        }
    }

    /// What a startup-stage failure does: the error is recorded, any
    /// child already spawned is surrendered so nothing leaks, and the run
    /// ends — as `Stopped` when a stop had already fired, else `Failed`.
    pub open spec fn spec_on_start_failure(self, e: StartupError) -> (
        Supervisor,
        Option<ServerHandle>,
    ) {
        if self.stop_requested {
            (
                Supervisor { state: SupervisorState::Stopped, handle: None, stop_requested: false, ..self },
                self.handle,
            )
        } else {
            (
                Supervisor { state: SupervisorState::Failed, handle: None, error: Some(e), ..self },
                self.handle,
            )
        }
    }

    /// A supervisor with no run begun.
    pub fn new() -> (r: Supervisor)
        ensures
            r == Supervisor::spec_new(),
            r.wf(),
    {
        Supervisor {
            state: SupervisorState::Idle,
            handle: None,
            endpoint: None,
            error: None,
            stop_requested: false,
        }
    }

    /// Begin startup.  Startup can begin only once: every later state
    /// refuses it, so a stopped or failed supervisor can never be
    /// restarted.
    pub fn begin_start(&mut self)
        requires
            old(self).wf(),
            old(self).state == SupervisorState::Idle,
        ensures
            final(self).wf(),
            *final(self) == (Supervisor { state: SupervisorState::Starting, ..*old(self) }),
    {
        self.state = SupervisorState::Starting;
    }

    /// The launcher spawned the child.  Returns the handle to kill at
    /// once when a stop has already fired; otherwise stores it.
    pub fn on_spawned(&mut self, h: ServerHandle) -> (r: Option<ServerHandle>)
        requires
            old(self).wf(),
            old(self).state == SupervisorState::Starting,
            old(self).handle is None,
        ensures
            final(self).wf(),
            (*final(self), r) == old(self).spec_on_spawned(h),
    {
        if self.stop_requested {
            self.state = SupervisorState::Stopped;
            self.stop_requested = false;
            Some(h)
        } else {
            self.handle = Some(h);
            None
        }
    }

    /// The readiness probe succeeded.  Returns the handle to kill when a
    /// stop fired during the wait; otherwise the run is `Running` and the
    /// endpoint is recorded for navigation.
    pub fn on_ready(&mut self, ep: Endpoint) -> (r: Option<ServerHandle>)
        requires
            old(self).wf(),
            old(self).state == SupervisorState::Starting,
            old(self).stop_requested || old(self).handle is Some,
        ensures
            final(self).wf(),
            (*final(self), r) == old(self).spec_on_ready(ep),
    {
        if self.stop_requested {
            self.stop_requested = false;
            self.state = SupervisorState::Stopped;
            self.handle.take()
        } else {
            self.state = SupervisorState::Running;
            self.endpoint = Some(ep);
            None
        }
    }

    /// A startup stage failed.  The returned handle, if any, is the child
    /// spawned before the failure; it must be killed so nothing leaks.
    pub fn on_start_failure(&mut self, e: StartupError) -> (r: Option<ServerHandle>)
        requires
            old(self).wf(),
            old(self).state == SupervisorState::Starting,
        ensures
            final(self).wf(),
            (*final(self), r) == old(self).spec_on_start_failure(e),
    {
        if self.stop_requested {
            self.stop_requested = false;
            self.state = SupervisorState::Stopped;
            self.handle.take()
        } else {
            self.state = SupervisorState::Failed;
            self.error = Some(e);
            self.handle.take()
        }
    }

    /// Record whether the window could be navigated to the running
    /// server.  A failed navigation is not fatal: nothing is rolled
    /// back, the run stays `Running`, and the failure is only reported.
    pub fn record_navigation(&mut self, ok: bool) -> (r: NavigationOutcome)
        requires
            old(self).wf(),
            old(self).state == SupervisorState::Running,
        ensures
            *final(self) == *old(self),
            final(self).wf(),
            r == (if ok {
                NavigationOutcome::Navigated
            } else {
                NavigationOutcome::NavigationFailed
            }),
    {
        if ok {
            NavigationOutcome::Navigated
        } else {
            NavigationOutcome::NavigationFailed
        }
    }

    /// Stop the run.  Safe from any state: it returns the handle to kill
    /// when a child is held, marks an in-flight startup so the startup
    /// events surrender their child, and otherwise does nothing.
    pub fn stop(&mut self) -> (r: Option<ServerHandle>)
        requires
            old(self).wf(),
        ensures
            final(self).wf(),
            (*final(self), r) == old(self).spec_stop(),
    {
        match self.state {
            SupervisorState::Running => {
                self.state = SupervisorState::Stopped;
                self.handle.take()
            },
            SupervisorState::Starting => {
                self.stop_requested = true;
                self.handle.take()
            },
            _ => None,
        }
    }
}

/// A clean startup drives the machine exactly as promised: beginning
/// from a fresh supervisor, the spawned child is stored, the probe
/// success makes the run `Running` with the endpoint recorded for
/// navigation, and no kill is ever directed.
pub proof fn lemma_successful_start(h: ServerHandle, ep: Endpoint)
    ensures
        ({
            let s1 = Supervisor { state: SupervisorState::Starting, ..Supervisor::spec_new() };
            let spawned = s1.spec_on_spawned(h);
            let ready = spawned.0.spec_on_ready(ep);
            spawned.1 is None && ready.1 is None && ready.0.state == SupervisorState::Running
                && ready.0.handle == Some(h) && ready.0.endpoint == Some(ep) && ready.0.wf()
        }),
{
}

/// Any startup-stage failure ends the run as promised: the state is
/// `Failed`, the error is recorded, and whatever child was already
/// spawned is surrendered for termination so nothing leaks.
pub proof fn lemma_failed_start(s: Supervisor, e: StartupError)
    requires
        s.wf(),
        s.state == SupervisorState::Starting,
        !s.stop_requested,
    ensures
        s.spec_on_start_failure(e).0.state == SupervisorState::Failed,
        s.spec_on_start_failure(e).0.error == Some(e),
        s.spec_on_start_failure(e).0.handle is None,
        s.spec_on_start_failure(e).1 == s.handle,
        s.spec_on_start_failure(e).0.wf(),
{
}

/// Stopping twice is stopping once: the second stop changes nothing and
/// signals nothing, so no handle can ever be killed twice.
pub proof fn lemma_stop_idempotent(s: Supervisor)
    requires
        s.wf(),
    ensures
        s.spec_stop().0.spec_stop().0 == s.spec_stop().0,
        s.spec_stop().0.spec_stop().1 is None,
{
}

/// Stopping a supervisor whose startup was never begun does nothing: the
/// state is unchanged and no termination is attempted.
pub proof fn lemma_stop_without_start(s: Supervisor)
    requires
        s == Supervisor::spec_new(),
    ensures
        s.spec_stop().0 == s,
        s.spec_stop().1 is None,
{
}

/// The start/stop race is safe.  Whichever way a stop interleaves with
/// the spawn of the child, after both events the child's handle has been
/// surrendered for termination exactly once and the supervisor holds no
/// handle and is not running — no live child outlasts the two calls.
pub proof fn lemma_start_stop_race(s: Supervisor, h: ServerHandle)
    requires
        s.wf(),
        s.state == SupervisorState::Starting,
        s.handle is None,
        !s.stop_requested,
    ensures
        ({
            let stopped = s.spec_stop();
            let spawned = stopped.0.spec_on_spawned(h);
            stopped.1 is None && spawned.1 == Some(h) && spawned.0.handle is None
                && spawned.0.state != SupervisorState::Running
        }),
        ({
            let spawned = s.spec_on_spawned(h);
            let stopped = spawned.0.spec_stop();
            spawned.1 is None && stopped.1 == Some(h) && stopped.0.handle is None
                && stopped.0.state != SupervisorState::Running
        }),
{
}

} // verus!
