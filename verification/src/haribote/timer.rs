//! Timer manager

use vstd::prelude::*;
use std::collections::BTreeMap;
use crate::haribote::Handle;
use vstd::std_specs::iter::IteratorSpec;
use vstd::std_specs::btree::increasing_seq;
use vstd::std_specs::cmp::OrdSpec;

verus! {

broadcast use vstd::std_specs::btree::group_btree_axioms, vstd::laws_cmp::group_laws_cmp;

/// A timer: the code it sends when it fires, and whether it is set.
#[derive(Debug, Clone, Copy, PartialEq, Eq, Structural)]
pub struct Timer {
    pub value: u32,
    pub is_active: bool,
}

/// The timers of a task, by handle.
pub struct TimerManager {
    pub timers: BTreeMap<u32, Timer>,
    pub next_handle: u32,
}

impl TimerManager {
    /// No timer.
    pub fn new() -> (r: Self)
        ensures
            r.timers@ == Map::<u32, Timer>::empty(),
            r.next_handle == 1,
    {
        Self { timers: BTreeMap::new(), next_handle: 1 }
    }

    /// Makes a new timer, not set, and returns its handle.
    pub fn allocate(&mut self) -> (r: Handle)
        ensures
            r == Handle(old(self).next_handle),
            final(self).next_handle == old(self).next_handle.wrapping_add(1),
            final(self).timers@ == old(self).timers@.insert(
                old(self).next_handle,
                Timer { value: 0, is_active: false },
            ),
    {
        let timer = Timer { value: 0, is_active: false };
        let handle = Handle(self.next_handle);
        self.next_handle = self.next_handle.wrapping_add(1);
        self.timers.insert(handle.0, timer);
        handle
    }

    /// Sets the code that a timer sends.
    pub fn init(&mut self, handle: Handle, value: u32)
        ensures
            final(self).next_handle == old(self).next_handle,
            old(self).timers@.contains_key(handle.0) ==> final(self).timers@ == old(self).timers@.insert(
                handle.0,
                Timer { value, ..old(self).timers@[handle.0] },
            ),
            !old(self).timers@.contains_key(handle.0) ==> final(self).timers@ == old(self).timers@,
    {
        if let Some(timer) = self.timers.get(&handle.0) {
            let t = Timer { value, ..*timer };
            self.timers.insert(handle.0, t);
        }
    }

    /// Sets a timer; returns the delay and the code of the event that the host
    /// is to send back, where the timer exists.
    pub fn set(&mut self, handle: Handle, timeout: u32) -> (r: Option<(u32, i32)>)
        ensures
            final(self).next_handle == old(self).next_handle,
            old(self).timers@.contains_key(handle.0) ==> {
                &&& final(self).timers@ == old(self).timers@.insert(
                    handle.0,
                    Timer { is_active: true, ..old(self).timers@[handle.0] },
                )
                &&& r == Some((timeout, old(self).timers@[handle.0].value as i32))
            },
            !old(self).timers@.contains_key(handle.0) ==> final(self).timers@ == old(self).timers@
                && r is None,
    {
        if let Some(timer) = self.timers.get(&handle.0) {
            let t = Timer { is_active: true, ..*timer };
            self.timers.insert(handle.0, t);
            Some((timeout, t.value as i32))
        } else {
            None
        }
    }

    /// Stops a timer.
    pub fn free(&mut self, handle: Handle)
        ensures
            final(self).next_handle == old(self).next_handle,
            old(self).timers@.contains_key(handle.0) ==> final(self).timers@ == old(self).timers@.insert(
                handle.0,
                Timer { is_active: false, ..old(self).timers@[handle.0] },
            ),
            !old(self).timers@.contains_key(handle.0) ==> final(self).timers@ == old(self).timers@,
    {
        if let Some(timer) = self.timers.get(&handle.0) {
            let t = Timer { is_active: false, ..*timer };
            self.timers.insert(handle.0, t);
        }
    }

    /// The first set timer, in handle order, that sends `value`.
    pub fn first_firing(&self, value: u32) -> (r: Option<u32>)
        ensures
            r matches Some(h) ==> is_first_firing(self.timers@, value, h),
            r is None ==> forall|h: u32| !fires(self.timers@, h, value),
    {
        let ghost m = self.timers@;
        let iter = self.timers.iter();
        let ghost s = iter.remaining();
        let ghost keys = s.map_values(|kv: (&u32, &Timer)| *kv.0);
        assert(increasing_seq(keys));
        let mut found: Option<u32> = None;
        for kv in it: iter
            invariant_except_break
                found is None,
                forall|j: int| 0 <= j < it.index() ==> !fires(m, *(#[trigger] s[j]).0, value),
            invariant
                m == self.timers@,
                it.seq() == s,
                s == vstd::std_specs::btree::spec_btree_map_iter(&self.timers).remaining(),
                keys == s.map_values(|kv: (&u32, &Timer)| *kv.0),
                increasing_seq(keys),
            ensures
                found matches Some(h) ==> is_first_firing(m, value, h),
                found is None ==> forall|j: int| 0 <= j < s.len() ==> !fires(m, *(#[trigger] s[j]).0, value),
        {
            let ghost i = it.index();
            let (k, t) = kv;
            if t.is_active && t.value == value {
                found = Some(*k);
                proof {
                    assert(kv == s[i]);
                    assert(m.contains_key(*s[i].0));
                    assert forall|h: u32| h < *k implies !fires(m, h, value) by {
                        if fires(m, h, value) {
                            assert(s.contains((&h, &m[h])));
                            let j = choose|j: int| 0 <= j < s.len() && s[j] == (&h, &m[h]);
                            assert(keys[j] == h);
                            assert(keys[i] == *k);
                            if i < j {
                                assert(keys[i].cmp_spec(&keys[j]) is Less);
                            }
                        }
                    }
                }
                break;
            }
        }
        proof {
            if found is None {
                assert forall|h: u32| !fires(m, h, value) by {
                    if fires(m, h, value) {
                        assert(s.contains((&h, &m[h])));
                        let j = choose|j: int| 0 <= j < s.len() && s[j] == (&h, &m[h]);
                        assert(!fires(m, *s[j].0, value));
                    }
                }
            }
        }
        found
    }

    /// Marks the set timer that sends `value` as fired: the first such timer
    /// in handle order is stopped; where there is none, nothing changes.
    pub fn ack(&mut self, value: u32)
        ensures
            final(self).next_handle == old(self).next_handle,
            (forall|h: u32| !fires(old(self).timers@, h, value)) ==> final(self).timers@ == old(self).timers@,
            forall|h: u32| #[trigger] is_first_firing(old(self).timers@, value, h)
                ==> final(self).timers@ == old(self).timers@.insert(h, Timer { value, is_active: false }),
    {
        let found = self.first_firing(value);
        if let Some(h) = found {
            self.timers.insert(h, Timer { value, is_active: false });
        }
        proof {
            assert forall|h: u32| #[trigger] is_first_firing(old(self).timers@, value, h)
                implies found == Some(h) by {
                if let Some(g) = found {
                    if g < h { assert(!fires(old(self).timers@, g, value)); }
                    if h < g { assert(!fires(old(self).timers@, h, value)); }
                }
            }
        }
    }
}

/// Whether the timer `h` is set and sends `value`.
pub open spec fn fires(m: Map<u32, Timer>, h: u32, value: u32) -> bool {
    m.contains_key(h) && m[h].is_active && m[h].value == value
}

/// Whether `h` is the lowest handle of a set timer that sends `value`.
pub open spec fn is_first_firing(m: Map<u32, Timer>, value: u32, h: u32) -> bool {
    fires(m, h, value) && forall|k: u32| k < h ==> !fires(m, k, value)
}

} // verus!
