//! Stackful execution contexts: register images for each supported
//! architecture, the frames that start a flow on a fresh stack, and the
//! bookkeeping around a transfer of control between flows.
use vstd::prelude::*;

pub mod context;
pub mod detail;

pub use context::{Context, Stack, Transfer};

verus! {

} // verus!
