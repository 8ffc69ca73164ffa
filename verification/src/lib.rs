//! One-sided remote memory access between the processes of a group, and the
//! few collectives needed to set it up, as far as they can be decided without
//! the network.
//!
//! Nothing here touches memory through an address or talks to a transport.
//! A pointer is an address and what has to go with it; an operation is the
//! call that the transport is to be given. Whoever drives the library hands
//! each call to the transport and reports back what the transport said: the
//! status code of a call, the outcome of a test for completion, the table
//! that a gather filled.

use vstd::prelude::*;

pub mod coll;
pub mod dev;
pub mod rma;
pub mod structs;
pub mod traits;
pub mod util;

verus! {

/// Zero-based identity of a process in the group.
pub type ProcInt = usize;

} // verus!
