//! The server lifecycle coordinator: the state machine that takes the three
//! listeners from `Starting` through `Running` and `Draining` to `Stopped`,
//! and the fail-fast policy that turns their exits into a process outcome.

use vstd::prelude::*;

verus! {

/// The three independent network listeners the gateway runs.
#[derive(Clone, Copy, Debug, PartialEq, Eq, Structural)]
pub enum Listener {
    /// The cert-authenticated mutual-TLS request listener.
    Mtls,
    /// The plain, unauthenticated health listener.
    Health,
    /// The RPC request listener.
    Rpc,
}

/// The phase of the process.
#[derive(Clone, Copy, Debug, PartialEq, Eq, Structural)]
pub enum Phase {
    /// Configuration is loaded, the TLS context built, listeners bound.
    Starting,
    /// All three listeners accept concurrently.
    Running,
    /// The termination signal arrived; in-flight work may finish.
    Draining,
    /// All three listener tasks have returned.
    Stopped,
}

/// Time units of the bounded grace period granted to the request listeners
/// on the termination signal.
pub const GRACE_PERIOD: u64 = 30;

/// The drain instruction issued on the termination signal: how long each
/// listener may keep in-flight work before forced termination. Zero means
/// the listener drains immediately, without a separate grace period.
#[derive(Clone, Copy, Debug, PartialEq, Eq, Structural)]
pub struct DrainPlan {
    pub mtls_grace: u64,
    pub rpc_grace: u64,
    pub health_grace: u64,
}

/// The terminal verdict over the three listener exits: clean, or the first
/// failed listener, by the fixed inspection order RPC, mutual-TLS, health.
#[derive(Clone, Copy, Debug, PartialEq, Eq, Structural)]
pub enum ProcessOutcome {
    /// Every listener returned without error: the process exits zero.
    Clean,
    /// A listener task returned an error: the whole process fails fast.
    ListenerFailed(Listener),
}

/// The verdict the coordinator reaches once each listener has reported
/// whether it returned cleanly.
pub open spec fn spec_outcome(rpc_ok: bool, mtls_ok: bool, health_ok: bool) -> ProcessOutcome {
    if !rpc_ok {
        ProcessOutcome::ListenerFailed(Listener::Rpc)
    } else if !mtls_ok {
        ProcessOutcome::ListenerFailed(Listener::Mtls)
    } else if !health_ok {
        ProcessOutcome::ListenerFailed(Listener::Health)
    } else {
        ProcessOutcome::Clean
    }
}

/// The server lifecycle coordinator.
///
/// It records the phase of the process and, per listener, whether its task
/// has returned and did so cleanly. The loop that owns the real tasks
/// reports each event; the coordinator decides the transitions.
#[derive(Clone, Copy, Debug, PartialEq, Eq)]
pub struct Coordinator {
    pub phase: Phase,
    pub rpc_exit: Option<bool>,
    pub mtls_exit: Option<bool>,
    pub health_exit: Option<bool>,
}

impl Coordinator {
    /// Well-formedness: nothing has exited before the listeners run, and
    /// the process has stopped exactly when all three tasks have returned.
    pub open spec fn wf(self) -> bool {
        &&& self.phase is Starting ==> self.rpc_exit is None && self.mtls_exit is None
            && self.health_exit is None
        &&& self.phase is Stopped <==> self.rpc_exit is Some && self.mtls_exit is Some
            && self.health_exit is Some
    }

    /// Whether the task of `listener` has been recorded as returned.
    pub open spec fn spec_exit(self, listener: Listener) -> Option<bool> {
        match listener {
            Listener::Rpc => self.rpc_exit,
            Listener::Mtls => self.mtls_exit,
            Listener::Health => self.health_exit,
        }
    }

    /// A coordinator for a process that is starting up.
    pub fn new() -> (r: Coordinator)
        ensures
            r.wf(),
            r.phase is Starting,
    {
        Coordinator { phase: Phase::Starting, rpc_exit: None, mtls_exit: None, health_exit: None }
    }

    /// All three listeners are bound and accepting.
    pub fn listeners_bound(&mut self)
        requires
            old(self).wf(),
            old(self).phase is Starting,
        ensures
            final(self).wf(),
            final(self).phase is Running,
            final(self).rpc_exit == old(self).rpc_exit,
            final(self).mtls_exit == old(self).mtls_exit,
            final(self).health_exit == old(self).health_exit,
    {
        self.phase = Phase::Running;
    }

    /// The external termination signal arrived.
    ///
    /// The process begins draining: the mutual-TLS listener and the RPC
    /// listener are granted the bounded grace period in which in-flight
    /// requests may complete, while the health listener drains immediately
    /// on the same signal, without a separate grace period.
    pub fn on_signal(&mut self) -> (plan: DrainPlan)
        requires
            old(self).wf(),
            old(self).phase is Running,
        ensures
            final(self).wf(),
            final(self).phase is Draining,
            final(self).rpc_exit == old(self).rpc_exit,
            final(self).mtls_exit == old(self).mtls_exit,
            final(self).health_exit == old(self).health_exit,
            plan == (DrainPlan {
                mtls_grace: GRACE_PERIOD as u64,
                rpc_grace: GRACE_PERIOD as u64,
                health_grace: 0u64,
            }),
    {
        self.phase = Phase::Draining;
        DrainPlan { mtls_grace: GRACE_PERIOD, rpc_grace: GRACE_PERIOD, health_grace: 0 }
    }

    /// The task of `listener` returned; `ok` tells whether it did so
    /// without error. Once all three have returned the process is stopped.
    pub fn on_listener_exit(&mut self, listener: Listener, ok: bool)
        requires
            old(self).wf(),
            old(self).phase is Running || old(self).phase is Draining,
            old(self).spec_exit(listener) is None,
        ensures
            final(self).wf(),
            final(self).spec_exit(listener) == Some(ok),
            forall|other: Listener|
                other != listener ==> final(self).spec_exit(other) == old(self).spec_exit(other),
            final(self).phase is Stopped <==> (final(self).rpc_exit is Some
                && final(self).mtls_exit is Some && final(self).health_exit is Some),
            !(final(self).phase is Stopped) ==> final(self).phase == old(self).phase,
    {
        match listener {
            Listener::Rpc => self.rpc_exit = Some(ok),
            Listener::Mtls => self.mtls_exit = Some(ok),
            Listener::Health => self.health_exit = Some(ok),
        }
        if matches!(self.rpc_exit, Some(_)) && matches!(self.mtls_exit, Some(_)) && matches!(
            self.health_exit,
            Some(_),
        ) {
            self.phase = Phase::Stopped;
        }
    }

    /// Whether all three listener tasks have returned.
    pub fn all_exited(&self) -> (r: bool)
        ensures
            r == (self.rpc_exit is Some && self.mtls_exit is Some && self.health_exit is Some),
    {
        matches!(self.rpc_exit, Some(_)) && matches!(self.mtls_exit, Some(_)) && matches!(
            self.health_exit,
            Some(_),
        )
    }

    /// The fail-fast verdict once the process has stopped: clean only when
    /// every listener returned without error; otherwise the first failed
    /// listener in the fixed inspection order, whatever the other two did.
    pub fn outcome(&self) -> (r: ProcessOutcome)
        requires
            self.wf(),
            self.phase is Stopped,
        ensures
            r == spec_outcome(self.rpc_exit->0, self.mtls_exit->0, self.health_exit->0),
            r is Clean <==> (self.rpc_exit == Some(true) && self.mtls_exit == Some(true)
                && self.health_exit == Some(true)),
    {
        match (self.rpc_exit, self.mtls_exit, self.health_exit) {
            (Some(false), _, _) => ProcessOutcome::ListenerFailed(Listener::Rpc),
            (_, Some(false), _) => ProcessOutcome::ListenerFailed(Listener::Mtls),
            (_, _, Some(false)) => ProcessOutcome::ListenerFailed(Listener::Health),
            _ => ProcessOutcome::Clean,
        }
    }
}

/// The process exit code an outcome maps to: zero on clean shutdown after
/// the signal, non-zero when any listener task failed.
pub fn exit_code(outcome: ProcessOutcome) -> (r: i32)
    ensures
        r == 0 <==> outcome is Clean,
        outcome is ListenerFailed ==> r == 1,
{
    match outcome {
        ProcessOutcome::Clean => 0,
        ProcessOutcome::ListenerFailed(_) => 1,
    }
}

} // verus!
