use vstd::prelude::*;

verus! {

/// A single-shot completion sink: the boundary between the single-threaded
/// machine and whatever the host uses to wait for results.
pub trait Responder<X> {
    /// Delivers a value to the caller at most once; on failure the value is
    /// handed back to the sender.
    fn respond(self, x: X) -> (r: Result<(), X>)
        ensures
            r matches Err(y) ==> y == x,
    ;
}

} // verus!
