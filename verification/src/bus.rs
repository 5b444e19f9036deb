//! Messages handed to the command and query bus.

use vstd::prelude::*;

verus! {

/// A request to the bus: the identity of the user who makes it, and its payload.
#[derive(Debug, Clone, PartialEq, Eq)]
pub struct Message<T>(pub String, pub T);

} // verus!
