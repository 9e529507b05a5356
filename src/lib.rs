//! Lifecycle management and event bridging for an embedded device-control
//! engine: a single-run lifecycle manager, the join of a run's three tasks,
//! the backdoor relay's decisions, and the broadcast buses, each with its
//! contract.

use vstd::prelude::*;

pub mod bus;
pub mod config;
pub mod lifecycle;
pub mod logging;
pub mod orchestrator;
pub mod relay;

verus! {

} // verus!
