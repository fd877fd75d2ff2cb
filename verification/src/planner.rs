//! The physical-planning entry point that carries the transport handle.

use std::sync::Arc;
use vstd::prelude::*;

verus! {

/// Plans queries against the remote engine that `transport` reaches.
///
/// `T` is the transport service; it may be unsized, so that a trait object
/// can stand behind the `Arc`.
pub struct CubeQueryPlanner<T: ?Sized> {
    pub transport: Arc<T>,
}

impl<T: ?Sized> CubeQueryPlanner<T> {
    /// Wraps the shared transport handle; the planner holds exactly the
    /// handle it was given.
    pub fn new(transport: Arc<T>) -> (planner: Self)
        ensures
            planner.transport == transport,
    {
        Self { transport }
    }
}

} // verus!
