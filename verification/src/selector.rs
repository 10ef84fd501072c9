//! Choice of the mesh address that the node binds to and routes from.

use crate::addresses::{AddressSet, MeshAddress};
use vstd::prelude::*;

verus! {

/// No address of the snapshot met the predicate. The caller polls again.
#[derive(Clone, Copy, Debug, PartialEq, Eq)]
pub struct NotFound;

/// The predicates by which the node picks its address.
#[derive(Clone, Copy, Debug, PartialEq, Eq)]
pub enum AddressRule {
    /// The address is link-local.
    LinkLocal,
    /// The first 16 bits of the address equal the given marker.
    FirstSegment(u16),
}

impl AddressRule {
    /// Whether `address` meets the rule.
    pub open spec fn holds(self, address: MeshAddress) -> bool {
        match self {
            AddressRule::LinkLocal => address.spec_is_link_local(),
            AddressRule::FirstSegment(marker) => address.spec_first_segment() == marker,
        }
    }

    /// Whether `address` meets the rule.
    pub fn accepts(&self, address: &MeshAddress) -> (yes: bool)
        ensures
            yes == self.holds(*address),
    {
        match self {
            AddressRule::LinkLocal => address.is_link_local(),
            AddressRule::FirstSegment(marker) => address.first_segment() == *marker,
        }
    }
}

/// `found` is the outcome of a search for the first item of `addresses` that
/// meets `wanted`: the earliest such item, or nothing where there is none.
pub open spec fn is_first_match(
    addresses: Seq<MeshAddress>,
    wanted: spec_fn(MeshAddress) -> bool,
    found: Option<MeshAddress>,
) -> bool {
    match found {
        Some(address) => exists|at: int|
            0 <= at < addresses.len() && #[trigger] addresses[at] == address && wanted(address)
                && forall|before: int| 0 <= before < at ==> !wanted(#[trigger] addresses[before]),
        None => forall|at: int| 0 <= at < addresses.len() ==> !wanted(#[trigger] addresses[at]),
    }
}

/// `found` is a possible outcome of a search through `addresses` with the
/// executable predicate `predicate`: the predicate accepted the item found and
/// refused every item before it, or it refused them all.
pub open spec fn is_first_accepted<F: Fn(&MeshAddress) -> bool>(
    addresses: Seq<MeshAddress>,
    predicate: F,
    found: Option<MeshAddress>,
) -> bool {
    match found {
        Some(address) => exists|at: int|
            0 <= at < addresses.len() && #[trigger] addresses[at] == address && call_ensures(
                predicate,
                (&address,),
                true,
            ) && forall|before: int|
                0 <= before < at ==> call_ensures(
                    predicate,
                    (&#[trigger] addresses[before],),
                    false,
                ),
        None => forall|at: int|
            0 <= at < addresses.len() ==> call_ensures(
                predicate,
                (&#[trigger] addresses[at],),
                false,
            ),
    }
}

/// The result of a selection as an `Option`.
pub open spec fn found_of(selected: Result<MeshAddress, NotFound>) -> Option<MeshAddress> {
    match selected {
        Ok(address) => Some(address),
        Err(_) => None,
    }
}

/// Picks the first address of the snapshot that `predicate` accepts.
pub fn select<F: Fn(&MeshAddress) -> bool>(addresses: &AddressSet, predicate: F) -> (selected:
    Result<MeshAddress, NotFound>)
    requires
        forall|at: int|
            0 <= at < addresses@.len() ==> call_requires(predicate, (&#[trigger] addresses@[at],)),
    ensures
        is_first_accepted(addresses@, predicate, found_of(selected)),
        addresses@.len() == 0 ==> selected is Err,
{
    let n = addresses.len();
    let mut at: usize = 0;
    while at < n
        invariant
            n == addresses@.len(),
            0 <= at <= n,
            forall|i: int|
                0 <= i < addresses@.len() ==> call_requires(
                    predicate,
                    (&#[trigger] addresses@[i],),
                ),
            forall|before: int|
                0 <= before < at ==> call_ensures(
                    predicate,
                    (&#[trigger] addresses@[before],),
                    false,
                ),
        decreases n - at,
    {
        if let Some(address) = addresses.get(at) {
            if predicate(&address) {
                assert(addresses@[at as int] == address);
                return Ok(address);
            }
        }
        at += 1;
    }
    Err(NotFound)
}

/// Picks the first address of the snapshot that meets `rule`.
pub fn select_by(addresses: &AddressSet, rule: AddressRule) -> (selected: Result<
    MeshAddress,
    NotFound,
>)
    ensures
        is_first_match(addresses@, |a: MeshAddress| rule.holds(a), found_of(selected)),
        addresses@.len() == 0 ==> selected is Err,
{
    let accepts = |a: &MeshAddress| -> (yes: bool)
        ensures
            yes == rule.holds(*a),
        { rule.accepts(a) };
    let selected = select(addresses, accepts);
    proof {
        lemma_accepted_is_match(
            addresses@,
            accepts,
            |a: MeshAddress| rule.holds(a),
            found_of(selected),
        );
    }
    selected
}

/// Where an executable predicate computes `wanted`, what a search with it
/// finds is the first match of `wanted`.
pub proof fn lemma_accepted_is_match<F: Fn(&MeshAddress) -> bool>(
    addresses: Seq<MeshAddress>,
    predicate: F,
    wanted: spec_fn(MeshAddress) -> bool,
    found: Option<MeshAddress>,
)
    requires
        forall|a: MeshAddress, yes: bool|
            call_ensures(predicate, (&a,), yes) ==> yes == wanted(a),
        is_first_accepted(addresses, predicate, found),
    ensures
        is_first_match(addresses, wanted, found),
{
    match found {
        Some(address) => {
            let at = choose|at: int|
                0 <= at < addresses.len() && #[trigger] addresses[at] == address && call_ensures(
                    predicate,
                    (&address,),
                    true,
                ) && forall|before: int|
                    0 <= before < at ==> call_ensures(
                        predicate,
                        (&#[trigger] addresses[before],),
                        false,
                    );
            assert(addresses[at] == address && wanted(address));
            assert forall|before: int| 0 <= before < at implies !wanted(
                #[trigger] addresses[before],
            ) by {
                assert(call_ensures(predicate, (&addresses[before],), false));
            }
        },
        None => {
            assert forall|at: int| 0 <= at < addresses.len() implies !wanted(
                #[trigger] addresses[at],
            ) by {
                assert(call_ensures(predicate, (&addresses[at],), false));
            }
        },
    }
}

/// A search has one outcome: two results that are both the first match of
/// `wanted` in `addresses` are the same.
pub proof fn lemma_first_match_unique(
    addresses: Seq<MeshAddress>,
    wanted: spec_fn(MeshAddress) -> bool,
    first: Option<MeshAddress>,
    second: Option<MeshAddress>,
)
    requires
        is_first_match(addresses, wanted, first),
        is_first_match(addresses, wanted, second),
    ensures
        first == second,
{
    if let Some(a) = first {
        let i = choose|at: int|
            0 <= at < addresses.len() && #[trigger] addresses[at] == a && wanted(a) && forall|
                before: int,
            |
                0 <= before < at ==> !wanted(#[trigger] addresses[before]);
        if let Some(b) = second {
            let j = choose|at: int|
                0 <= at < addresses.len() && #[trigger] addresses[at] == b && wanted(b) && forall|
                    before: int,
                |
                    0 <= before < at ==> !wanted(#[trigger] addresses[before]);
            if i < j {
                assert(!wanted(addresses[i]));
            } else if j < i {
                assert(!wanted(addresses[j]));
            }
        } else {
            assert(!wanted(addresses[i]));
        }
    } else if let Some(b) = second {
        let j = choose|at: int|
            0 <= at < addresses.len() && #[trigger] addresses[at] == b && wanted(b) && forall|
                before: int,
            |
                0 <= before < at ==> !wanted(#[trigger] addresses[before]);
        assert(!wanted(addresses[j]));
    }
}

/// A search through an empty snapshot finds nothing, whatever is wanted.
pub proof fn lemma_empty_finds_nothing(
    wanted: spec_fn(MeshAddress) -> bool,
    found: Option<MeshAddress>,
)
    requires
        is_first_match(Seq::<MeshAddress>::empty(), wanted, found),
    ensures
        found is None,
{
}

/// Where exactly one address of the snapshot is link-local, a search for a
/// link-local address finds that one.
pub proof fn lemma_single_link_local_is_found(
    addresses: Seq<MeshAddress>,
    at: int,
    found: Option<MeshAddress>,
)
    requires
        0 <= at < addresses.len(),
        addresses[at].spec_is_link_local(),
        forall|other: int|
            0 <= other < addresses.len() && other != at ==> !(#[trigger] addresses[other]).spec_is_link_local(),
        is_first_match(addresses, |a: MeshAddress| AddressRule::LinkLocal.holds(a), found),
    ensures
        found == Some(addresses[at]),
{
    let wanted = |a: MeshAddress| AddressRule::LinkLocal.holds(a);
    match found {
        Some(address) => {
            let i = choose|i: int|
                0 <= i < addresses.len() && #[trigger] addresses[i] == address && wanted(address)
                    && forall|before: int|
                    0 <= before < i ==> !wanted(#[trigger] addresses[before]);
            assert(addresses[i].spec_is_link_local());
            assert(i == at);
        },
        None => {
            assert(!wanted(addresses[at]));
        },
    }
}

} // verus!
