//! Record instances and their slot storage.
//!
//! A record instance holds a frozen flag and a fixed-length array of optional
//! values, one slot per attribute index known at its type's construction
//! time.  A slot is unset until the first write or the first
//! default-triggered read.
//!
//! Exclusive access: every slot read-modify or write happens through `&mut`,
//! which is this model's exclusive-access scope; the embedding acquires its
//! per-instance critical section around each operation, and may skip it for
//! reads once the instance is frozen, since frozen data is immutable by
//! contract.

use vstd::prelude::*;

use crate::errors::Error;
use crate::errors::ErrorV;
use crate::errors::err_view;
use crate::value::Value;
use crate::value::ValueV;
use crate::value::vview;

verus! {

/// The slot-index space is 8 bits wide: no instance holds more than this
/// many attributes.
pub const MAX_SLOTS: usize = 255;

/// One record instance: a frozen flag, the name of its record type (carried
/// for failure reports), and the slot array.
pub struct AtorsBase {
    pub frozen: bool,
    pub owner_name: String,
    pub slots: Vec<Option<Value>>,
}

/// View of a slot array: each slot either unset or the view of its value.
pub open spec fn slots_view(slots: Seq<Option<Value>>) -> Seq<Option<ValueV>> {
    Seq::new(
        slots.len(),
        |i: int|
            if 0 <= i < slots.len() {
                match slots[i] {
                    Some(v) => Some(vview(v)),
                    None => None,
                }
            } else {
                None
            },
    )
}

impl AtorsBase {
    /// Allocate an instance of a record type with the given attribute count:
    /// unfrozen, every slot unset.  A type with more attributes than the
    /// 8-bit slot space holds is rejected.
    pub fn new(owner_name: String, slot_count: usize) -> (r: Result<Self, Error>)
        ensures
            match r {
                Ok(obj) => slot_count <= MAX_SLOTS && !obj.frozen && obj.owner_name@ == owner_name@
                    && obj.slots@.len() == slot_count && (forall|i: int|
                    0 <= i < slot_count ==> obj.slots@[i] is None),
                Err(e) => slot_count > MAX_SLOTS && err_view(e) == (ErrorV::SlotsExhausted {
                    owner: owner_name@,
                }),
            },
    {
        if slot_count > MAX_SLOTS {
            return Err(Error::SlotsExhausted { owner: owner_name });
        }
        let mut slots: Vec<Option<Value>> = Vec::new();
        let mut i: usize = 0;
        while i < slot_count
            invariant
                i <= slot_count,
                slots@.len() == i,
                forall|j: int| 0 <= j < i ==> slots@[j] is None,
            decreases slot_count - i,
        {
            slots.push(None);
            i = i + 1;
        }
        Ok(AtorsBase { frozen: false, owner_name, slots })
    }

    /// Whether the instance is frozen.
    pub fn is_frozen(&self) -> (r: bool)
        ensures
            r == self.frozen,
    {
        self.frozen
    }

    /// The name of the instance's record type.
    pub fn owner_name(&self) -> (r: &String)
        ensures
            r@ == self.owner_name@,
    {
        &self.owner_name
    }

    /// The number of slots.
    pub fn slot_count(&self) -> (r: usize)
        ensures
            r == self.slots@.len(),
    {
        self.slots.len()
    }

    /// The value stored in the slot, if any, as a copy.
    pub fn get_slot(&self, index: u8) -> (r: Option<Value>)
        requires
            (index as int) < self.slots@.len(),
        ensures
            match r {
                Some(v) => self.slots@[index as int] matches Some(s) && vview(v) == vview(s),
                None => self.slots@[index as int] is None,
            },
    {
        match &self.slots[index as usize] {
            Some(v) => Some(v.clone()),
            None => None,
        }
    }

    /// Store a value in the slot; every other slot and the frozen flag are
    /// untouched.
    pub fn set_slot(&mut self, index: u8, value: Value)
        requires
            (index as int) < old(self).slots@.len(),
        ensures
            final(self).frozen == old(self).frozen,
            final(self).owner_name@ == old(self).owner_name@,
            final(self).slots@.len() == old(self).slots@.len(),
            final(self).slots@[index as int] matches Some(s) && vview(s) == vview(value),
            forall|i: int|
                0 <= i < old(self).slots@.len() && i != index as int ==> slots_view(
                    final(self).slots@,
                )[i] == slots_view(old(self).slots@)[i],
    {
        let ghost v = value;
        self.slots.set(index as usize, Some(value));
        proof {
            assert(final(self).slots@[index as int] == Some(v));
        }
    }

    /// Clear the slot; every other slot and the frozen flag are untouched.
    pub fn del_slot(&mut self, index: u8)
        requires
            (index as int) < old(self).slots@.len(),
        ensures
            final(self).frozen == old(self).frozen,
            final(self).owner_name@ == old(self).owner_name@,
            final(self).slots@.len() == old(self).slots@.len(),
            final(self).slots@[index as int] is None,
            forall|i: int|
                0 <= i < old(self).slots@.len() && i != index as int ==> slots_view(
                    final(self).slots@,
                )[i] == slots_view(old(self).slots@)[i],
    {
        self.slots.set(index as usize, None);
    }
}

/// Freeze an instance: no further attribute mutation is permitted.
pub fn freeze(obj: &mut AtorsBase)
    ensures
        final(obj).frozen,
        final(obj).owner_name@ == old(obj).owner_name@,
        final(obj).slots@ == old(obj).slots@,
{
    obj.frozen = true;
}

/// Whether an instance is frozen.
pub fn is_frozen(obj: &AtorsBase) -> (r: bool)
    ensures
        r == obj.frozen,
{
    obj.frozen
}

} // verus!
