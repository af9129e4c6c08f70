//! The resumption outcome handed back to a cooperative scheduler.
use vstd::prelude::*;

verus! {

/// Outcome of resuming an asynchronous operation once: either the operation
/// has produced its final value, or it must be resumed again later.
pub enum Poll<T> {
    /// The operation has not produced a value yet.
    Pending,
    /// The operation has finished with the carried value.
    Ready(T),
}

impl<T> Poll<T> {
    /// Whether this outcome carries a final value.
    pub fn is_ready(&self) -> (r: bool)
        ensures
            r == (*self is Ready),
    {
        match self {
            Poll::Pending => false,
            Poll::Ready(_) => true,
        }
    }
}

} // verus!
