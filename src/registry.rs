use std::collections::HashMap;
use vstd::prelude::*;

use crate::error::{fails_with, ErrorKind, StoreError};

verus! {

broadcast use vstd::std_specs::hash::group_hash_axioms;

/// Number of distinct handle values: every `u32`.
pub open spec fn handle_space() -> nat {
    0x1_0000_0000
}

/// The table of live instances, keyed by the handle that `insert` issued.
///
/// Handles are issued in increasing order from zero and never reused, so
/// a handle that was removed can never again name a live instance.
pub struct Registry<T> {
    instances: HashMap<u32, T>,
    issued: u64,
}

impl<T> View for Registry<T> {
    type V = Map<u32, T>;

    closed spec fn view(&self) -> Map<u32, T> {
        self.instances@
    }
}

impl<T> Registry<T> {
    /// How many handles have been issued so far; the next one equals this.
    pub closed spec fn issued(&self) -> nat {
        self.issued as nat
    }

    pub closed spec fn wf(&self) -> bool {
        &&& self.issued <= handle_space()
        &&& forall|h: u32| #[trigger] self.instances@.contains_key(h) ==> (h as nat) < self.issued
    }

    pub fn new() -> (r: Registry<T>)
        ensures
            r.wf(),
            r@ == Map::<u32, T>::empty(),
            r.issued() == 0,
    {
        Registry { instances: HashMap::new(), issued: 0 }
    }

    /// Issues the next handle for `instance`, or fails once all are used.
    pub fn insert(&mut self, instance: T) -> (r: Result<u32, StoreError>)
        requires
            old(self).wf(),
        ensures
            final(self).wf(),
            old(self).issued() < handle_space() ==> {
                &&& r == Ok::<u32, StoreError>(old(self).issued() as u32)
                &&& final(self)@ == old(self)@.insert(old(self).issued() as u32, instance)
                &&& final(self).issued() == old(self).issued() + 1
            },
            old(self).issued() >= handle_space() ==> {
                &&& fails_with(r, ErrorKind::HandlesExhausted)
                &&& final(self)@ == old(self)@
                &&& final(self).issued() == old(self).issued()
            },
    {
        if self.issued >= 0x1_0000_0000 {
            return Err(StoreError::new(ErrorKind::HandlesExhausted, "no handle left to issue".to_string()));
        }
        let h = self.issued as u32;
        self.instances.insert(h, instance);
        self.issued = self.issued + 1;
        Ok(h)
    }

    pub fn contains(&self, h: u32) -> (r: bool)
        ensures
            r == self@.contains_key(h),
    {
        self.instances.contains_key(&h)
    }

    /// The live instance named by `h`.
    pub fn get(&self, h: u32) -> (r: Result<&T, StoreError>)
        ensures
            self@.contains_key(h) ==> r == Ok::<&T, StoreError>(&self@[h]),
            !self@.contains_key(h) ==> fails_with(r, ErrorKind::UnknownHandle),
    {
        match self.instances.get(&h) {
            Some(inst) => Ok(inst),
            None => Err(StoreError::new(ErrorKind::UnknownHandle, "unknown database handle".to_string())),
        }
    }

    /// Takes the instance named by `h` out of the table.
    pub fn remove(&mut self, h: u32) -> (r: Result<T, StoreError>)
        requires
            old(self).wf(),
        ensures
            final(self).wf(),
            final(self).issued() == old(self).issued(),
            final(self)@ == old(self)@.remove(h),
            old(self)@.contains_key(h) ==> r == Ok::<T, StoreError>(old(self)@[h]),
            !old(self)@.contains_key(h) ==> fails_with(r, ErrorKind::UnknownHandle),
            !old(self)@.contains_key(h) ==> final(self)@ == old(self)@,
    {
        match self.instances.remove(&h) {
            Some(inst) => Ok(inst),
            None => {
                proof {
                    assert(old(self)@.remove(h) =~= old(self)@);
                }
                Err(StoreError::new(ErrorKind::UnknownHandle, "unknown database handle".to_string()))
            },
        }
    }

    /// The next handle to be issued names no live instance.
    pub proof fn lemma_next_handle_fresh(&self)
        requires
            self.wf(),
            self.issued() < handle_space(),
        ensures
            !self@.contains_key(self.issued() as u32),
    {
    }

    /// A handle that was issued and then removed is never issued again:
    /// the next insert leaves it unknown, and so does every later one.
    pub proof fn lemma_retired_handle_stays_unknown(&self, h: u32, instance: T)
        requires
            self.wf(),
            !self@.contains_key(h),
            (h as nat) < self.issued(),
        ensures
            self.issued() < handle_space() ==> !self@.insert(self.issued() as u32, instance).contains_key(h),
            (h as nat) < self.issued() + 1,
    {
    }

    pub fn len(&self) -> (r: usize)
        ensures
            r == self@.len(),
    {
        self.instances.len()
    }
}

} // verus!
