//! Observation of the mesh: the wait for the node's first attachment, and the
//! watch that reports a change of its addresses.

use crate::addresses::{AddressSet, MeshAddress};
use vstd::prelude::*;

verus! {

/// The node's standing in the mesh. The mesh alone changes it.
#[derive(Clone, Copy, Debug, PartialEq, Eq, Structural)]
pub enum NetworkRole {
    Detached,
    Child,
    Router,
    Leader,
}

impl NetworkRole {
    /// Whether the node takes part in the mesh: as a child or better.
    pub open spec fn spec_is_attached(self) -> bool {
        self != NetworkRole::Detached
    }

    /// Whether the node takes part in the mesh: as a child or better.
    pub fn is_attached(&self) -> (yes: bool)
        ensures
            yes == self.spec_is_attached(),
    {
        match self {
            NetworkRole::Detached => false,
            NetworkRole::Child => true,
            NetworkRole::Router => true,
            NetworkRole::Leader => true,
        }
    }
}

/// What a waiting task does after a "changed" signal.
#[derive(Clone, Copy, Debug, PartialEq, Eq, Structural)]
pub enum WaitAction {
    /// The node is still detached: await the next signal.
    AwaitChange,
    /// The node is attached: the wait is over.
    Proceed,
}

/// Whether a wait that has seen `roles`, one per signal, is over: it ends
/// with the first role that is attached, and stays over from then on.
pub open spec fn ready_after(roles: Seq<NetworkRole>) -> bool {
    exists|at: int| 0 <= at < roles.len() && (#[trigger] roles[at]).spec_is_attached()
}

/// The signal on which a wait that sees `roles` returns, if it does.
pub open spec fn is_first_attached(roles: Seq<NetworkRole>, at: Option<int>) -> bool {
    match at {
        Some(i) => 0 <= i < roles.len() && roles[i].spec_is_attached() && forall|before: int|
            0 <= before < i ==> !(#[trigger] roles[before]).spec_is_attached(),
        None => !ready_after(roles),
    }
}

/// The wait for the node's first attachment to the mesh. It never gives up:
/// while the node stays detached the monitor keeps waiting.
#[derive(Clone, Copy, Debug, PartialEq, Eq)]
pub struct JoinMonitor {
    ready: bool,
    role: NetworkRole,
}

impl JoinMonitor {
    /// Whether the wait is over.
    pub closed spec fn spec_is_ready(self) -> bool {
        self.ready
    }

    /// The role that the last signal showed.
    pub closed spec fn spec_role(self) -> NetworkRole {
        self.role
    }

    /// A monitor that has seen no signal yet.
    pub fn new() -> (monitor: JoinMonitor)
        ensures
            !monitor.spec_is_ready(),
            monitor.spec_role() == NetworkRole::Detached,
    {
        JoinMonitor { ready: false, role: NetworkRole::Detached }
    }

    /// Whether the wait is over.
    pub fn is_ready(&self) -> (ready: bool)
        ensures
            ready == self.spec_is_ready(),
    {
        self.ready
    }

    /// The role that the last signal showed.
    pub fn role(&self) -> (role: NetworkRole)
        ensures
            role == self.spec_role(),
    {
        self.role
    }

    /// Takes in the role seen after one "changed" signal and says whether the
    /// wait goes on. The wait ends with the first attached role.
    pub fn on_changed(&mut self, role: NetworkRole) -> (action: WaitAction)
        ensures
            final(self).spec_role() == role,
            final(self).spec_is_ready() == (old(self).spec_is_ready() || role.spec_is_attached()),
            action == if final(self).spec_is_ready() {
                WaitAction::Proceed
            } else {
                WaitAction::AwaitChange
            },
    {
        self.role = role;
        if role.is_attached() {
            self.ready = true;
        }
        if self.ready {
            WaitAction::Proceed
        } else {
            WaitAction::AwaitChange
        }
    }
}

/// Runs a wait over the roles seen after successive "changed" signals and
/// gives the position of the signal on which it returns: the first whose role
/// is attached. Over roles that are all detached the wait does not return.
pub fn wait_until_ready(roles: &Vec<NetworkRole>) -> (returned_at: Option<usize>)
    ensures
        is_first_attached(
            roles@,
            match returned_at {
                Some(at) => Some(at as int),
                None => None,
            },
        ),
        returned_at is Some == ready_after(roles@),
{
    let mut monitor = JoinMonitor::new();
    let mut at: usize = 0;
    while at < roles.len()
        invariant
            0 <= at <= roles.len(),
            !monitor.spec_is_ready(),
            forall|before: int| 0 <= before < at ==> !(#[trigger] roles@[before]).spec_is_attached(),
        decreases roles.len() - at,
    {
        match monitor.on_changed(roles[at]) {
            WaitAction::Proceed => {
                return Some(at);
            },
            WaitAction::AwaitChange => {},
        }
        at += 1;
    }
    None
}

/// A wait does not return while every signal shows the node detached.
pub proof fn lemma_detached_keeps_waiting(roles: Seq<NetworkRole>)
    requires
        forall|at: int| 0 <= at < roles.len() ==> #[trigger] roles[at] == NetworkRole::Detached,
    ensures
        !ready_after(roles),
        is_first_attached(roles, None),
{
}

/// A wait returns on the first signal that shows the node attached: it is
/// over after that signal and was not over after any signal before it.
pub proof fn lemma_returns_on_first_attached(roles: Seq<NetworkRole>, at: int)
    requires
        0 <= at < roles.len(),
        roles[at].spec_is_attached(),
        forall|before: int| 0 <= before < at ==> !(#[trigger] roles[before]).spec_is_attached(),
    ensures
        is_first_attached(roles, Some(at)),
        ready_after(roles.take(at + 1)),
        forall|n: int| 0 <= n <= at ==> !ready_after(#[trigger] roles.take(n)),
{
    assert(roles.take(at + 1)[at].spec_is_attached());
    assert forall|n: int| 0 <= n <= at implies !ready_after(#[trigger] roles.take(n)) by {
        let shorter = roles.take(n);
        assert forall|i: int| 0 <= i < shorter.len() implies !(#[trigger] shorter[i]).spec_is_attached() by {
            assert(shorter[i] == roles[i]);
        }
    }
}

/// The signal on which a wait returns is determined by the roles it sees.
pub proof fn lemma_first_attached_unique(roles: Seq<NetworkRole>, a: Option<int>, b: Option<int>)
    requires
        is_first_attached(roles, a),
        is_first_attached(roles, b),
    ensures
        a == b,
{
    if let Some(i) = a {
        if let Some(j) = b {
            if i < j {
                assert(!roles[i].spec_is_attached());
            } else if j < i {
                assert(!roles[j].spec_is_attached());
            }
        } else {
            assert(roles[i].spec_is_attached());
        }
    } else if let Some(j) = b {
        assert(roles[j].spec_is_attached());
    }
}

/// The watch on the node's addresses: it keeps the last snapshot and reports
/// a new one only where it differs.
pub struct AddressWatch {
    current: AddressSet,
}

impl AddressWatch {
    /// The addresses of the last snapshot taken in.
    pub closed spec fn spec_current(self) -> Seq<MeshAddress> {
        self.current@
    }

    /// A watch that has seen no address yet.
    pub fn new() -> (watch: AddressWatch)
        ensures
            watch.spec_current() == Seq::<MeshAddress>::empty(),
    {
        AddressWatch { current: AddressSet::new() }
    }

    /// The last snapshot taken in.
    pub fn current(&self) -> (set: &AddressSet)
        ensures
            set@ == self.spec_current(),
    {
        &self.current
    }

    /// Takes in a fresh snapshot and says whether it is to be reported: it
    /// is where it differs from the one before. The fresh one is kept.
    pub fn observe(&mut self, snapshot: AddressSet) -> (changed: bool)
        ensures
            changed == (snapshot@ != old(self).spec_current()),
            final(self).spec_current() == snapshot@,
    {
        let changed = !self.current.same_as(&snapshot);
        if changed {
            self.current = snapshot;
        }
        changed
    }
}

} // verus!
