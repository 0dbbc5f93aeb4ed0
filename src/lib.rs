//! Liveness and latency probing of a list of RPC endpoints: the endpoint
//! list parser, the per-endpoint probe as a state machine, the result record
//! and its text rendering, and the ordered report over all endpoints.
use vstd::prelude::*;

pub mod endpoints;
pub mod outcome;
pub mod probe;
pub mod report;
pub mod text;

verus! {

} // verus!
