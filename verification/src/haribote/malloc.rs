//! Simple memory allocator

use vstd::prelude::*;

verus! {

/// `size` rounded up to a multiple of 16.
pub open spec fn round16(size: int) -> int {
    (size + 15) / 16 * 16
}

/// A bump allocator over the range `start..end` of the task's data segment.
pub struct SimpleAllocator {
    pub start: usize,
    pub end: usize,
}

/// What `allocate` does to the allocator `a` for `size` bytes: the allocator
/// after it and the address that it hands out.
pub open spec fn allocated(a: SimpleAllocator, size: usize) -> (SimpleAllocator, Option<usize>) {
    let n = round16(size as int);
    if a.start + n <= a.end {
        (SimpleAllocator { start: (a.start + n) as usize, end: a.end }, Some(a.start))
    } else {
        (a, None)
    }
}

/// Two allocations one after the other hand out ranges of at least the sizes
/// asked for, inside the free range, that do not overlap: the second starts
/// at or after the end of the first.
pub proof fn lemma_allocations_disjoint(a: SimpleAllocator, s1: usize, s2: usize)
    ensures
        ({
            let (b, r1) = allocated(a, s1);
            let (c, r2) = allocated(b, s2);
            &&& r1 matches Some(p1) ==> a.start <= p1 && p1 + s1 <= p1 + round16(s1 as int) <= a.end
            &&& (r1 is Some && r2 is Some) ==> r1->0 + round16(s1 as int) <= r2->0
                && r2->0 + s2 <= r2->0 + round16(s2 as int) <= a.end
            &&& c.end == a.end
        }),
{
    assert(round16(s1 as int) >= s1) by (nonlinear_arith);
    assert(round16(s2 as int) >= s2) by (nonlinear_arith);
}

impl SimpleAllocator {
    /// An allocator with nothing to hand out.
    pub fn new() -> (r: Self)
        ensures
            r.start == 0,
            r.end == 0,
    {
        SimpleAllocator { start: 0, end: 0 }
    }

    /// Hands out the range of `size` bytes from `start` on; its end wraps
    /// around at the width of `usize`.
    pub fn init(&mut self, start: usize, size: usize)
        ensures
            final(self).start == start,
            final(self).end == start.wrapping_add(size),
    {
        self.start = start;
        self.end = start.wrapping_add(size);
    }

    /// Takes `size` bytes, rounded up to a multiple of 16, from the front of
    /// the free range; `None` when they do not fit.
    pub fn allocate(&mut self, size: usize) -> (r: Option<usize>)
        ensures
            (*final(self), r) == allocated(*old(self), size),
            ({
                let n = round16(size as int);
                if old(self).start + n <= old(self).end {
                    &&& r == Some(old(self).start)
                    &&& final(self).start == old(self).start + n
                    &&& final(self).end == old(self).end
                } else {
                    &&& r is None
                    &&& *final(self) == *old(self)
                }
            }),
    {
        let rounded = size / 16 * 16;
        let ghost requested = size as int;
        let size = if rounded == size { rounded as u128 } else { rounded as u128 + 16 };
        assert(size == round16(requested)) by (nonlinear_arith)
            requires
                rounded == requested / 16 * 16,
                size == (if rounded == requested { rounded as int } else { rounded + 16 }),
                requested >= 0,
        ;
        if (self.start as u128) + size > (self.end as u128) {
            None
        } else {
            let addr = self.start;
            self.start = (self.start as u128 + size) as usize;
            Some(addr)
        }
    }

    /// Gives back a range; this allocator never reuses memory.
    pub fn free(&mut self, addr: usize, size: usize)
        ensures
            *final(self) == *old(self),
    {
        let _ = (addr, size);
    }
}

} // verus!
