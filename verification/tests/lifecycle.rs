//! Tests of the server lifecycle coordinator.

use permission_gateway::lifecycle::{
    exit_code, Coordinator, DrainPlan, Listener, Phase, ProcessOutcome, GRACE_PERIOD,
};

#[test]
fn a_clean_life_ends_with_exit_code_zero() {
    let mut c = Coordinator::new();
    assert_eq!(c.phase, Phase::Starting);
    c.listeners_bound();
    assert_eq!(c.phase, Phase::Running);
    let plan = c.on_signal();
    assert_eq!(c.phase, Phase::Draining);
    assert_eq!(
        plan,
        DrainPlan { mtls_grace: GRACE_PERIOD, rpc_grace: GRACE_PERIOD, health_grace: 0 }
    );
    c.on_listener_exit(Listener::Health, true);
    assert_eq!(c.phase, Phase::Draining);
    c.on_listener_exit(Listener::Mtls, true);
    c.on_listener_exit(Listener::Rpc, true);
    assert_eq!(c.phase, Phase::Stopped);
    assert!(c.all_exited());
    let outcome = c.outcome();
    assert_eq!(outcome, ProcessOutcome::Clean);
    assert_eq!(exit_code(outcome), 0);
}

#[test]
fn the_signal_grants_grace_to_the_request_listeners_only() {
    let mut c = Coordinator::new();
    c.listeners_bound();
    let plan = c.on_signal();
    assert_eq!(plan.mtls_grace, 30);
    assert_eq!(plan.rpc_grace, 30);
    assert_eq!(plan.health_grace, 0);
}

#[test]
fn any_failed_listener_fails_the_whole_process() {
    let mut c = Coordinator::new();
    c.listeners_bound();
    c.on_listener_exit(Listener::Mtls, false);
    assert_eq!(c.phase, Phase::Running);
    c.on_listener_exit(Listener::Rpc, true);
    c.on_listener_exit(Listener::Health, true);
    assert_eq!(c.phase, Phase::Stopped);
    let outcome = c.outcome();
    assert_eq!(outcome, ProcessOutcome::ListenerFailed(Listener::Mtls));
    assert_ne!(exit_code(outcome), 0);
}

#[test]
fn failures_are_reported_in_the_fixed_inspection_order() {
    let mut c = Coordinator::new();
    c.listeners_bound();
    c.on_signal();
    c.on_listener_exit(Listener::Mtls, false);
    c.on_listener_exit(Listener::Rpc, false);
    c.on_listener_exit(Listener::Health, true);
    assert_eq!(c.outcome(), ProcessOutcome::ListenerFailed(Listener::Rpc));
}

#[test]
fn a_health_failure_alone_is_still_fatal() {
    let mut c = Coordinator::new();
    c.listeners_bound();
    c.on_signal();
    c.on_listener_exit(Listener::Rpc, true);
    c.on_listener_exit(Listener::Mtls, true);
    c.on_listener_exit(Listener::Health, false);
    assert_eq!(c.outcome(), ProcessOutcome::ListenerFailed(Listener::Health));
    assert_eq!(exit_code(c.outcome()), 1);
}
