use crate::context::{Gl, RequestView};
use vstd::prelude::*;

verus! {

/// An object of the graphics interface that can be released. The program releases an object
/// once, when it has no more use for it.
pub trait Cleanup {
    /// The requests that release the object and what it owns, in their order.
    spec fn release(&self) -> Seq<RequestView>;

    /// Records the requests that release the object.
    fn cleanup(&self, gl: &mut Gl)
        ensures
            final(gl)@ == old(gl)@ + self.release(),
    ;
}

} // verus!
