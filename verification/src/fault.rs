//! Faults that the node cannot recover from by itself, and its answer to them.

use vstd::prelude::*;

verus! {

/// An error of the configuration. It is found before the main loop starts,
/// and no retry mends it.
#[derive(Clone, Copy, Debug, PartialEq, Eq, Structural)]
pub enum ConfigError {
    /// The prefix length is none of those under which an IPv4 address can be
    /// embedded.
    InvalidPrefixLength(u8),
    /// The mesh refused the operational dataset.
    MalformedDataset,
}

/// What the node does about a fault that nothing below the top has absorbed.
#[derive(Clone, Copy, Debug, PartialEq, Eq, Structural)]
pub enum FaultResponse {
    /// Stop for good, and leave the recovery to a watchdog or a power cycle.
    Halt,
}

/// The node's answer to a fault that has reached the top of the program: it
/// halts, whatever the fault. Nothing restarts it from inside.
pub fn panic(fault: &ConfigError) -> (response: FaultResponse)
    ensures
        response == FaultResponse::Halt,
{
    FaultResponse::Halt
}

} // verus!
