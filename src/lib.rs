//! The relay layer of a countdown timer with a second, audience-facing display.
//!
//! The control window publishes timer messages on a process-wide bus; a relay
//! mirrors each of them onto the bus of one secondary window, which is created
//! exactly once.
use vstd::prelude::*;

pub mod event;
pub mod json;
pub mod message;
pub mod relay;
pub mod session;

verus! {

} // verus!
