//! The startup state machine of the server runtime. It decides what happens
//! next from the current state and the outcome of the last piece of outside
//! work; the caller performs each action and reports its outcome back.

use vstd::prelude::*;
use crate::admission::AdmissionError;
use crate::tls::TlsError;

verus! {

/// Where the server is in its lifetime.
#[derive(Clone, Copy, Debug, PartialEq, Eq, Structural)]
pub enum Phase {
    /// Configuration is complete; nothing has started.
    Configured,
    /// The TLS identity is being loaded.
    LoadingIdentity,
    /// The admission policy is being built.
    BuildingPolicy,
    /// Workers are assembled and the TLS listener is being bound.
    Binding,
    /// The listener is bound and the workers serve requests.
    Serving,
    /// Startup failed or the host process ended the server.
    Stopped,
}

/// Why the server stopped before serving.
#[derive(Clone, Copy, Debug, PartialEq, Eq, Structural)]
pub enum StartupFailure {
    /// The TLS identity could not be loaded.
    Tls(TlsError),
    /// The rate limit does not make a usable admission policy.
    RateLimit(AdmissionError),
    /// The listener could not be bound (address in use, no permission).
    Bind,
}

/// The outcome of outside work, reported to the state machine.
#[derive(Clone, Copy, Debug, PartialEq, Eq, Structural)]
pub enum Event {
    /// The caller asks the server to start.
    Start,
    /// The TLS identity was loaded.
    IdentityLoaded,
    /// Loading the TLS identity failed.
    IdentityFailed(TlsError),
    /// The admission policy was built.
    PolicyBuilt,
    /// The rate limit was refused.
    PolicyFailed(AdmissionError),
    /// The listener is bound.
    BindSucceeded,
    /// Binding the listener failed.
    BindFailed,
    /// The host process ended the server.
    Terminated,
}

/// What the caller must do next.
#[derive(Clone, Copy, Debug, PartialEq, Eq, Structural)]
pub enum Action {
    /// Load the TLS identity from the configured certificate and key paths.
    LoadIdentity,
    /// Build the admission policy from the configured rate limit.
    BuildPolicy,
    /// Assemble the per-worker application (CORS outermost, then admission,
    /// then routes) and bind the TLS listener.
    AssembleAndBind,
    /// Run the given number of workers on the bound listener.
    Serve(u64),
    /// Report why startup failed; nothing is bound and no worker runs.
    Report(StartupFailure),
    /// Nothing to do.
    Nothing,
}

/// The state of one server's startup: its phase, and how many listeners
/// and workers it has brought up so far.
#[derive(Clone, Copy, Debug, PartialEq, Eq, Structural)]
pub struct Startup {
    pub phase: Phase,
    pub worker_count: u64,
    pub listeners_bound: u64,
    pub workers_spawned: u64,
}

/// The state before `start`, for a pool of `worker_count` workers.
pub open spec fn initial(worker_count: u64) -> Startup {
    Startup { phase: Phase::Configured, worker_count, listeners_bound: 0, workers_spawned: 0 }
}

/// The state `s` with another phase.
pub open spec fn with_phase(s: Startup, phase: Phase) -> Startup {
    Startup { phase, ..s }
}

/// One transition: the next state and the action the caller performs.
/// An event that does not fit the phase changes nothing.
pub open spec fn transition(s: Startup, e: Event) -> (Startup, Action) {
    match (s.phase, e) {
        (Phase::Configured, Event::Start) => (with_phase(s, Phase::LoadingIdentity), Action::LoadIdentity),
        (Phase::LoadingIdentity, Event::IdentityLoaded) => (with_phase(s, Phase::BuildingPolicy), Action::BuildPolicy),
        (Phase::LoadingIdentity, Event::IdentityFailed(t)) => (
            with_phase(s, Phase::Stopped),
            Action::Report(StartupFailure::Tls(t)),
        ),
        (Phase::BuildingPolicy, Event::PolicyBuilt) => (with_phase(s, Phase::Binding), Action::AssembleAndBind),
        (Phase::BuildingPolicy, Event::PolicyFailed(a)) => (
            with_phase(s, Phase::Stopped),
            Action::Report(StartupFailure::RateLimit(a)),
        ),
        (Phase::Binding, Event::BindSucceeded) => (
            Startup {
                phase: Phase::Serving,
                listeners_bound: 1,
                workers_spawned: s.worker_count,
                ..s
            },
            Action::Serve(s.worker_count),
        ),
        (Phase::Binding, Event::BindFailed) => (
            with_phase(s, Phase::Stopped),
            Action::Report(StartupFailure::Bind),
        ),
        (Phase::Serving, Event::Terminated) => (with_phase(s, Phase::Stopped), Action::Nothing),
        _ => (s, Action::Nothing),
    }
}

/// The state after a sequence of events.
pub open spec fn run(s: Startup, events: Seq<Event>) -> Startup
    decreases events.len(),
{
    if events.len() == 0 {
        s
    } else {
        run(transition(s, events[0]).0, events.drop_first())
    }
}

impl Startup {
    /// The state before `start`, for a pool of `worker_count` workers.
    pub fn new(worker_count: u64) -> (r: Startup)
        requires
            worker_count > 0,
        ensures
            r == initial(worker_count),
    {
        Startup { phase: Phase::Configured, worker_count, listeners_bound: 0, workers_spawned: 0 }
    }

    /// Takes one event: the next state and the action to perform.
    pub fn step(self, e: Event) -> (r: (Startup, Action))
        ensures
            r == transition(self, e),
    {
        let stopped = Startup { phase: Phase::Stopped, ..self };
        match (self.phase, e) {
            (Phase::Configured, Event::Start) => (Startup { phase: Phase::LoadingIdentity, ..self }, Action::LoadIdentity),
            (Phase::LoadingIdentity, Event::IdentityLoaded) => (Startup { phase: Phase::BuildingPolicy, ..self }, Action::BuildPolicy),
            (Phase::LoadingIdentity, Event::IdentityFailed(t)) => (stopped, Action::Report(StartupFailure::Tls(t))),
            (Phase::BuildingPolicy, Event::PolicyBuilt) => (Startup { phase: Phase::Binding, ..self }, Action::AssembleAndBind),
            (Phase::BuildingPolicy, Event::PolicyFailed(a)) => (stopped, Action::Report(StartupFailure::RateLimit(a))),
            (Phase::Binding, Event::BindSucceeded) => (
                Startup {
                    phase: Phase::Serving,
                    listeners_bound: 1,
                    workers_spawned: self.worker_count,
                    ..self
                },
                Action::Serve(self.worker_count),
            ),
            (Phase::Binding, Event::BindFailed) => (stopped, Action::Report(StartupFailure::Bind)),
            (Phase::Serving, Event::Terminated) => (stopped, Action::Nothing),
            _ => (self, Action::Nothing),
        }
    }
}

/// Once stopped, a server stays stopped and brings nothing more up,
/// whatever events follow.
pub proof fn lemma_stopped_is_final(s: Startup, events: Seq<Event>)
    requires
        s.phase == Phase::Stopped,
    ensures
        run(s, events) == s,
    decreases events.len(),
{
    if events.len() > 0 {
        lemma_stopped_is_final(transition(s, events[0]).0, events.drop_first());
    }
}

/// A server whose TLS identity fails to load binds no listener and spawns
/// no worker, whatever events follow.
pub proof fn lemma_failed_identity_brings_nothing_up(worker_count: u64, t: TlsError, events: Seq<Event>)
    ensures
        ({
            let failed = transition(transition(initial(worker_count), Event::Start).0, Event::IdentityFailed(t));
            &&& failed.1 == Action::Report(StartupFailure::Tls(t))
            &&& run(failed.0, events).phase == Phase::Stopped
            &&& run(failed.0, events).listeners_bound == 0
            &&& run(failed.0, events).workers_spawned == 0
        }),
{
    let failed = transition(transition(initial(worker_count), Event::Start).0, Event::IdentityFailed(t));
    lemma_stopped_is_final(failed.0, events);
}

/// Workers run only on a bound listener: in every state reached from the
/// start, spawned workers imply a bound listener, and no more workers than
/// the pool holds are spawned.
pub proof fn lemma_workers_only_after_bind(worker_count: u64, events: Seq<Event>)
    ensures
        run(initial(worker_count), events).workers_spawned > 0 ==> run(initial(worker_count), events).listeners_bound == 1,
        run(initial(worker_count), events).workers_spawned <= worker_count,
{
    lemma_run_keeps_counts(initial(worker_count), events);
}

proof fn lemma_run_keeps_counts(s: Startup, events: Seq<Event>)
    requires
        s.workers_spawned > 0 ==> s.listeners_bound == 1,
        s.workers_spawned <= s.worker_count,
    ensures
        run(s, events).workers_spawned > 0 ==> run(s, events).listeners_bound == 1,
        run(s, events).workers_spawned <= s.worker_count,
        run(s, events).worker_count == s.worker_count,
    decreases events.len(),
{
    if events.len() > 0 {
        lemma_run_keeps_counts(transition(s, events[0]).0, events.drop_first());
    }
}

} // verus!
