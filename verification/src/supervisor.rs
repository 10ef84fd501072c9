//! The top of the node: it waits for the mesh, picks the address to bind,
//! and then asks for one publish session after another, for ever.

use crate::addresses::{AddressSet, MeshAddress};
use crate::monitor::{JoinMonitor, NetworkRole, WaitAction};
use crate::selector::{is_first_match, select_by, AddressRule};
use crate::session::{OutOfTurn, SessionOutcome};
use vstd::prelude::*;

verus! {

/// Seconds of rest before each session.
pub const CYCLE_DELAY_SECS: u64 = 1;

/// Seconds of rest after a session that got as far as publishing.
pub const PUBLISH_INTERVAL_SECS: u64 = 5;

/// What the supervisor is waiting for.
#[derive(Clone, Copy, Debug, PartialEq, Eq, Structural)]
pub enum SupervisorPhase {
    /// For the node to become attached to the mesh.
    Joining,
    /// For a snapshot that holds an address to bind.
    Acquiring,
    /// For the chosen address to be bound.
    Binding,
    /// For the rest before the next session to pass.
    Pausing,
    /// For the running session to end.
    InSession,
}

/// What the supervisor asks of its caller.
#[derive(Clone, Copy, Debug, PartialEq, Eq)]
pub enum SupervisorAction {
    /// Await the next "changed" signal of the mesh and report the role.
    AwaitChange,
    /// Take a snapshot of the node's addresses and report it.
    TakeSnapshot,
    /// Bind the network stack to this address.
    Bind(MeshAddress),
    /// Rest for this many seconds.
    Sleep(u64),
    /// Run one publish session from this address.
    RunSession(MeshAddress),
}

/// The rest that follows a session with this outcome. A session that failed
/// before it could publish is repeated after the short rest alone.
pub open spec fn rest_after(outcome: SessionOutcome) -> u64 {
    match outcome {
        SessionOutcome::Published => (PUBLISH_INTERVAL_SECS + CYCLE_DELAY_SECS) as u64,
        SessionOutcome::PublishFailure => (PUBLISH_INTERVAL_SECS + CYCLE_DELAY_SECS) as u64,
        SessionOutcome::TransportFailure => CYCLE_DELAY_SECS,
        SessionOutcome::HandshakeFailure(_) => CYCLE_DELAY_SECS,
    }
}

/// The driver of the node. It never gives up and never backs off: every
/// failure of a session is followed by the next session.
#[derive(Clone, Copy, Debug, PartialEq, Eq)]
pub struct Supervisor {
    rule: AddressRule,
    phase: SupervisorPhase,
    monitor: JoinMonitor,
    bound: Option<MeshAddress>,
}

impl Supervisor {
    #[verifier::type_invariant]
    spec fn well_formed(self) -> bool {
        match self.phase {
            SupervisorPhase::Joining => !self.monitor.spec_is_ready() && self.bound is None,
            SupervisorPhase::Acquiring => self.monitor.spec_is_ready() && self.bound is None,
            _ => self.monitor.spec_is_ready() && self.bound is Some,
        }
    }

    /// What the supervisor is waiting for.
    pub closed spec fn spec_phase(self) -> SupervisorPhase {
        self.phase
    }

    /// The rule by which the address to bind is picked.
    pub closed spec fn spec_rule(self) -> AddressRule {
        self.rule
    }

    /// Whether the node has been seen attached to the mesh.
    pub closed spec fn spec_is_ready(self) -> bool {
        self.monitor.spec_is_ready()
    }

    /// The address that was picked, once one was.
    pub closed spec fn spec_bound(self) -> Option<MeshAddress> {
        self.bound
    }

    /// Only a supervisor that has seen the node attached and has picked an
    /// address rests before a session or runs one.
    pub open spec fn cycling_is_earned(self) -> bool {
        match self.spec_phase() {
            SupervisorPhase::Joining => !self.spec_is_ready() && self.spec_bound() is None,
            SupervisorPhase::Acquiring => self.spec_is_ready() && self.spec_bound() is None,
            _ => self.spec_is_ready() && self.spec_bound() is Some,
        }
    }

    /// A supervisor at the start: the node is not known to be attached, and
    /// the caller is to await the first signal of the mesh.
    pub fn new(rule: AddressRule) -> (started: (Supervisor, SupervisorAction))
        ensures
            started.0.spec_rule() == rule,
            started.0.spec_phase() == SupervisorPhase::Joining,
            started.0.cycling_is_earned(),
            started.1 == SupervisorAction::AwaitChange,
    {
        (
            Supervisor {
                rule,
                phase: SupervisorPhase::Joining,
                monitor: JoinMonitor::new(),
                bound: None,
            },
            SupervisorAction::AwaitChange,
        )
    }

    /// What the supervisor is waiting for.
    pub fn phase(&self) -> (phase: SupervisorPhase)
        ensures
            phase == self.spec_phase(),
            self.cycling_is_earned(),
    {
        proof {
            use_type_invariant(self);
        }
        self.phase
    }

    /// The address that was picked, once one was.
    pub fn bound(&self) -> (bound: Option<MeshAddress>)
        ensures
            bound == self.spec_bound(),
            self.cycling_is_earned(),
    {
        proof {
            use_type_invariant(self);
        }
        self.bound
    }

    /// Takes in the role seen after a "changed" signal. While the node is
    /// joining, the wait goes on until the role is attached, and then a
    /// snapshot is asked for. While an address is wanted, every signal is
    /// followed by a fresh snapshot. Later the signal is out of turn.
    pub fn on_changed(&mut self, role: NetworkRole) -> (next: Result<SupervisorAction, OutOfTurn>)
        ensures
            final(self).spec_rule() == old(self).spec_rule(),
            final(self).spec_bound() == old(self).spec_bound(),
            final(self).cycling_is_earned(),
            match old(self).spec_phase() {
                SupervisorPhase::Joining => if role.spec_is_attached() {
                    final(self).spec_phase() == SupervisorPhase::Acquiring && next == Ok::<
                        SupervisorAction,
                        OutOfTurn,
                    >(SupervisorAction::TakeSnapshot)
                } else {
                    final(self).spec_phase() == SupervisorPhase::Joining && next == Ok::<
                        SupervisorAction,
                        OutOfTurn,
                    >(SupervisorAction::AwaitChange)
                },
                SupervisorPhase::Acquiring => final(self).spec_phase()
                    == SupervisorPhase::Acquiring && next == Ok::<SupervisorAction, OutOfTurn>(
                    SupervisorAction::TakeSnapshot,
                ),
                _ => final(self).spec_phase() == old(self).spec_phase() && next is Err,
            },
    {
        proof {
            use_type_invariant(&*self);
        }
        match self.phase {
            SupervisorPhase::Joining => {
                let mut monitor = self.monitor;
                match monitor.on_changed(role) {
                    WaitAction::Proceed => {
                        *self = Supervisor {
                            rule: self.rule,
                            phase: SupervisorPhase::Acquiring,
                            monitor,
                            bound: None,
                        };
                        Ok(SupervisorAction::TakeSnapshot)
                    },
                    WaitAction::AwaitChange => {
                        *self = Supervisor {
                            rule: self.rule,
                            phase: SupervisorPhase::Joining,
                            monitor,
                            bound: None,
                        };
                        Ok(SupervisorAction::AwaitChange)
                    },
                }
            },
            SupervisorPhase::Acquiring => Ok(SupervisorAction::TakeSnapshot),
            _ => Err(OutOfTurn),
        }
    }

    /// Takes in a snapshot of the node's addresses. The first address that
    /// meets the rule is picked and is to be bound. Where none does, the
    /// supervisor goes on waiting for the mesh to change.
    pub fn on_snapshot(&mut self, snapshot: &AddressSet) -> (next: Result<
        SupervisorAction,
        OutOfTurn,
    >)
        ensures
            final(self).spec_rule() == old(self).spec_rule(),
            final(self).cycling_is_earned(),
            match old(self).spec_phase() {
                SupervisorPhase::Acquiring => is_first_match(
                    snapshot@,
                    |a: MeshAddress| old(self).spec_rule().holds(a),
                    final(self).spec_bound(),
                ) && match final(self).spec_bound() {
                    Some(address) => final(self).spec_phase() == SupervisorPhase::Binding && next
                        == Ok::<SupervisorAction, OutOfTurn>(SupervisorAction::Bind(address)),
                    None => final(self).spec_phase() == SupervisorPhase::Acquiring && next == Ok::<
                        SupervisorAction,
                        OutOfTurn,
                    >(SupervisorAction::AwaitChange),
                },
                _ => next is Err && final(self).spec_phase() == old(self).spec_phase()
                    && final(self).spec_bound() == old(self).spec_bound(),
            },
    {
        proof {
            use_type_invariant(&*self);
        }
        match self.phase {
            SupervisorPhase::Acquiring => {
                match select_by(snapshot, self.rule) {
                    Ok(address) => {
                        *self = Supervisor {
                            rule: self.rule,
                            phase: SupervisorPhase::Binding,
                            monitor: self.monitor,
                            bound: Some(address),
                        };
                        Ok(SupervisorAction::Bind(address))
                    },
                    Err(_) => Ok(SupervisorAction::AwaitChange),
                }
            },
            _ => Err(OutOfTurn),
        }
    }

    /// Takes in that the chosen address is bound: the first rest begins.
    pub fn on_bound(&mut self) -> (next: Result<SupervisorAction, OutOfTurn>)
        ensures
            final(self).spec_rule() == old(self).spec_rule(),
            final(self).spec_bound() == old(self).spec_bound(),
            final(self).cycling_is_earned(),
            match old(self).spec_phase() {
                SupervisorPhase::Binding => final(self).spec_phase() == SupervisorPhase::Pausing
                    && next == Ok::<SupervisorAction, OutOfTurn>(
                    SupervisorAction::Sleep(CYCLE_DELAY_SECS),
                ),
                _ => final(self).spec_phase() == old(self).spec_phase() && next is Err,
            },
    {
        proof {
            use_type_invariant(&*self);
        }
        match self.phase {
            SupervisorPhase::Binding => {
                self.phase = SupervisorPhase::Pausing;
                Ok(SupervisorAction::Sleep(CYCLE_DELAY_SECS))
            },
            _ => Err(OutOfTurn),
        }
    }

    /// Takes in that the rest is over: a session is to run, from the address
    /// that was picked. No session is asked for before the node was seen
    /// attached and an address was picked.
    pub fn on_timer(&mut self) -> (next: Result<SupervisorAction, OutOfTurn>)
        ensures
            final(self).spec_rule() == old(self).spec_rule(),
            final(self).spec_bound() == old(self).spec_bound(),
            final(self).cycling_is_earned(),
            match old(self).spec_phase() {
                SupervisorPhase::Pausing => final(self).spec_phase() == SupervisorPhase::InSession
                    && old(self).spec_is_ready() && old(self).spec_bound() is Some && next == Ok::<
                    SupervisorAction,
                    OutOfTurn,
                >(SupervisorAction::RunSession(old(self).spec_bound().unwrap())),
                _ => final(self).spec_phase() == old(self).spec_phase() && next is Err,
            },
    {
        proof {
            use_type_invariant(&*self);
        }
        match (self.phase, self.bound) {
            (SupervisorPhase::Pausing, Some(address)) => {
                self.phase = SupervisorPhase::InSession;
                Ok(SupervisorAction::RunSession(address))
            },
            _ => Err(OutOfTurn),
        }
    }

    /// Takes in the outcome of the session that ran: whatever it is, a rest
    /// follows, and after it the next session.
    pub fn on_session_ended(&mut self, outcome: SessionOutcome) -> (next: Result<
        SupervisorAction,
        OutOfTurn,
    >)
        ensures
            final(self).spec_rule() == old(self).spec_rule(),
            final(self).spec_bound() == old(self).spec_bound(),
            final(self).cycling_is_earned(),
            match old(self).spec_phase() {
                SupervisorPhase::InSession => final(self).spec_phase() == SupervisorPhase::Pausing
                    && next == Ok::<SupervisorAction, OutOfTurn>(
                    SupervisorAction::Sleep(rest_after(outcome)),
                ),
                _ => final(self).spec_phase() == old(self).spec_phase() && next is Err,
            },
    {
        proof {
            use_type_invariant(&*self);
        }
        match self.phase {
            SupervisorPhase::InSession => {
                self.phase = SupervisorPhase::Pausing;
                Ok(SupervisorAction::Sleep(rest_for(outcome)))
            },
            _ => Err(OutOfTurn),
        }
    }
}

/// The rest, in seconds, that follows a session with this outcome.
pub fn rest_for(outcome: SessionOutcome) -> (seconds: u64)
    ensures
        seconds == rest_after(outcome),
{
    match outcome {
        SessionOutcome::Published => PUBLISH_INTERVAL_SECS + CYCLE_DELAY_SECS,
        SessionOutcome::PublishFailure => PUBLISH_INTERVAL_SECS + CYCLE_DELAY_SECS,
        SessionOutcome::TransportFailure => CYCLE_DELAY_SECS,
        SessionOutcome::HandshakeFailure(_) => CYCLE_DELAY_SECS,
    }
}

} // verus!
