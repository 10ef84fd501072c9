//! Decision logic of a mesh telemetry node: NAT64 address synthesis, mesh
//! address selection, join monitoring, and the connect/publish/retry cycle.

pub mod addresses;
pub mod config;
pub mod fault;
pub mod message;
pub mod monitor;
pub mod nat64;
pub mod selector;
pub mod session;
pub mod supervisor;
