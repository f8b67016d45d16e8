use vstd::prelude::*;

verus! {

/// What a callback tells the loop to do next.
#[derive(Clone, Copy, Debug, PartialEq, Eq, Structural)]
pub enum Action {
    /// Keep looping.
    Continue,
    /// End the phase that the callback belongs to: returned from the render
    /// callback it ends the loop, from the update callback the running pass.
    Stop,
}

} // verus!
