//! A checked handle registry: opaque nonzero integers standing for owned
//! heap objects. Zero is reserved to mean "absent" and is never issued.
//! Freeing is idempotent on zero and detected — not undefined — on a handle
//! that is not live.

use vstd::prelude::*;
use vstd::pervasive::VecAdditionalExecFns;

verus! {

/// The registry's slots; a handle is one more than a slot index, and a live
/// handle points at an occupied slot.
pub struct Registry<T> {
    slots: Vec<Option<T>>,
}

impl<T> View for Registry<T> {
    type V = Seq<Option<T>>;

    closed spec fn view(&self) -> Seq<Option<T>> {
        self.slots@
    }
}

impl<T> Registry<T> {
    /// Whether a handle is live: nonzero, in range, and pointing at an
    /// occupied slot.
    pub open spec fn valid_handle(&self, h: u64) -> bool {
        1 <= h <= self@.len() && self@[h - 1] is Some
    }

    pub fn new() -> (r: Self)
        ensures
            r@ == Seq::<Option<T>>::empty(),
    {
        Registry { slots: Vec::new() }
    }

    /// The number of slots ever issued, free or live.
    pub fn count(&self) -> (r: usize)
        ensures
            r == self@.len(),
    {
        self.slots.len()
    }

    /// Takes ownership of an object and issues the handle for it.
    pub fn insert(&mut self, v: T) -> (h: u64)
        requires
            old(self)@.len() < u64::MAX,
        ensures
            final(self)@ == old(self)@.push(Option::Some(v)),
            h == old(self)@.len() + 1,
            h != 0,
            final(self).valid_handle(h),
    {
        self.slots.push(Option::Some(v));
        self.slots.len() as u64
    }

    /// Looks a handle up without giving up ownership.
    pub fn get(&self, h: u64) -> (r: Option<&T>)
        ensures
            match r {
                Option::Some(v) => self.valid_handle(h) && self@[h - 1] == Option::Some(*v),
                Option::None => !self.valid_handle(h),
            },
    {
        if h == 0 || h > self.slots.len() as u64 {
            Option::None
        } else {
            match &self.slots[(h - 1) as usize] {
                Option::Some(v) => Option::Some(v),
                Option::None => Option::None,
            }
        }
    }

    /// Frees a live handle's object and reports whether the handle was
    /// live; a dead or zero handle changes nothing.
    pub fn free(&mut self, h: u64) -> (r: bool)
        ensures
            r == old(self).valid_handle(h),
            r ==> final(self)@ == old(self)@.update(h - 1, Option::None::<T>),
            !r ==> final(self)@ == old(self)@,
    {
        if h == 0 || h > self.slots.len() as u64 {
            false
        } else {
            let idx = (h - 1) as usize;
            match &self.slots[idx] {
                Option::Some(_) => {
                    self.slots.set(idx, Option::None);
                    true
                },
                Option::None => false,
            }
        }
    }
}

} // verus!
