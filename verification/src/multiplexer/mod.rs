//! The multiplexer abstraction and the herdr backend's logic.

use vstd::prelude::*;

pub mod backend;
pub mod events;
pub mod herdr;
pub mod types;

use types::ResumedView;

verus! {

/// An open attach, split into the half that sends and the half that receives.
#[derive(Debug)]
pub struct DualHandle<S, R> {
    pub sender: S,
    pub receiver: R,
    pub session_name: String,
    /// The view that the attach resolved from a resume hint. Absent for an attach
    /// without a hint.
    pub resumed_view: Option<ResumedView>,
}

impl<S, R> DualHandle<S, R> {
    /// Takes the handle apart into its two halves.
    pub fn split(self) -> (halves: (S, R))
        ensures
            halves == (self.sender, self.receiver),
    {
        (self.sender, self.receiver)
    }
}

/// Taken apart, a handle gives its own sender and its own receiver.
pub proof fn law_a_handle_is_split_into_its_halves<S, R>(h: DualHandle<S, R>, halves: (S, R))
    requires
        call_ensures(DualHandle::<S, R>::split, (h,), halves),
    ensures
        halves.0 == h.sender,
        halves.1 == h.receiver,
{
}

} // verus!
