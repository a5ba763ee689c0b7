use rusty_api::admission::AdmissionError;
use rusty_api::runtime::{Action, Event, Phase, Startup, StartupFailure};
use rusty_api::tls::TlsError;

fn drive(workers: u64, events: &[Event]) -> (Startup, Vec<Action>) {
    let mut s = Startup::new(workers);
    let mut actions = Vec::new();
    for e in events {
        let (next, a) = s.step(*e);
        s = next;
        actions.push(a);
    }
    (s, actions)
}

#[test]
fn mismatched_identity_binds_nothing() {
    let (s, actions) = drive(
        4,
        &[
            Event::Start,
            Event::IdentityFailed(TlsError::TlsConfigError),
            Event::PolicyBuilt,
            Event::BindSucceeded,
            Event::Terminated,
        ],
    );
    assert_eq!(s.phase, Phase::Stopped);
    assert_eq!(s.listeners_bound, 0);
    assert_eq!(s.workers_spawned, 0);
    assert_eq!(
        actions,
        vec![
            Action::LoadIdentity,
            Action::Report(StartupFailure::Tls(TlsError::TlsConfigError)),
            Action::Nothing,
            Action::Nothing,
            Action::Nothing,
        ]
    );
}

#[test]
fn successful_startup_serves_all_workers() {
    let (s, actions) = drive(
        3,
        &[Event::Start, Event::IdentityLoaded, Event::PolicyBuilt, Event::BindSucceeded],
    );
    assert_eq!(s.phase, Phase::Serving);
    assert_eq!(s.listeners_bound, 1);
    assert_eq!(s.workers_spawned, 3);
    assert_eq!(
        actions,
        vec![Action::LoadIdentity, Action::BuildPolicy, Action::AssembleAndBind, Action::Serve(3)]
    );
    let (s, a) = s.step(Event::Terminated);
    assert_eq!(s.phase, Phase::Stopped);
    assert_eq!(a, Action::Nothing);
}

#[test]
fn refused_rate_limit_stops_before_bind() {
    let (s, actions) = drive(
        2,
        &[Event::Start, Event::IdentityLoaded, Event::PolicyFailed(AdmissionError::ZeroRate)],
    );
    assert_eq!(s.phase, Phase::Stopped);
    assert_eq!(s.listeners_bound, 0);
    assert_eq!(actions[2], Action::Report(StartupFailure::RateLimit(AdmissionError::ZeroRate)));
}

#[test]
fn bind_failure_stops_without_workers() {
    let (s, actions) = drive(
        2,
        &[Event::Start, Event::IdentityLoaded, Event::PolicyBuilt, Event::BindFailed],
    );
    assert_eq!(s.phase, Phase::Stopped);
    assert_eq!(s.workers_spawned, 0);
    assert_eq!(s.listeners_bound, 0);
    assert_eq!(actions[3], Action::Report(StartupFailure::Bind));
}

#[test]
fn out_of_order_events_change_nothing() {
    let s = Startup::new(1);
    let (t, a) = s.step(Event::BindSucceeded);
    assert_eq!(t, s);
    assert_eq!(a, Action::Nothing);
    assert_eq!(t.phase, Phase::Configured);
}
