//! The delete policy of an attribute.

use vstd::prelude::*;

verus! {

/// How a delete request is handled: either the slot is cleared, or the
/// member cannot be deleted at all.
#[derive(Clone, Copy, PartialEq, Eq, Structural)]
pub enum DelattrBehavior {
    /// Clear the slot.
    Slot,
    /// Reject every delete.
    Undeletable,
}

} // verus!
