//! First-fit virtual-address allocator inside a bounded range, with
//! alignment and guard pages.
//!
//! An [`Aperture`] tracks the occupied ranges of one reserved VA region.
//! Each reservation of `size` bytes occupies a tracked range of
//! `size + 2 * guard_bytes` bytes; the address handed out points just
//! past the leading guard.  The tracked ranges are kept sorted and
//! mutually disjoint, so any two live reservations — guards included —
//! never overlap.

use vstd::prelude::*;
use crate::align_up_u128;

verus! {

/// Trait for aperture allocation strategies.
pub trait ApertureAllocator: Sized {
    /// The allocator's structural invariant.
    spec fn inv(&self) -> bool;

    /// Reserve a virtual address range within this aperture.
    fn allocate_va(&mut self, size: usize, align: usize) -> (r: Option<u64>)
        requires
            old(self).inv(),
            size >= 1,
        ensures
            final(self).inv(),
    ;

    /// Free a previously reserved virtual address range.
    fn free_va(&mut self, addr: u64, size: usize)
        requires
            old(self).inv(),
        ensures
            final(self).inv(),
    ;

    /// Get the aperture's base and limit.
    fn bounds(&self) -> (u64, u64);
}

/// A managed range of virtual address space.
pub struct Aperture {
    /// Lowest address of the managed range.
    pub base: u64,
    /// Highest address of the managed range (inclusive bound for ends).
    pub limit: u64,
    /// Minimum alignment of every tracked range start.
    pub align: u64,
    /// Number of 4 KiB guard pages placed before and after each reservation.
    pub guard_pages: u64,
    /// Occupied tracked ranges as (start, effective size), sorted by start.
    pub allocations: Vec<(u64, u64)>,
}

impl Aperture {
    /// Guard bytes added before and after each reservation.
    pub open spec fn guard_bytes(&self) -> int {
        self.guard_pages * 4096
    }

    /// The alignment actually applied for a request of alignment `align`.
    pub open spec fn eff_align(&self, align: u64) -> u64 {
        if align >= self.align {
            align
        } else {
            self.align
        }
    }

    /// Structural invariant: every tracked range lies within
    /// `[base, limit]`, and the ranges are sorted and disjoint.
    pub open spec fn wf(&self) -> bool {
        &&& self.align >= 1
        &&& forall|i: int|
            #![trigger self.allocations@[i]]
            0 <= i < self.allocations@.len() ==> {
                &&& self.allocations@[i].1 >= 1
                &&& self.base <= self.allocations@[i].0
                &&& self.allocations@[i].0 + self.allocations@[i].1 <= self.limit
            }
        &&& forall|i: int, j: int|
            #![trigger self.allocations@[i], self.allocations@[j]]
            0 <= i < j < self.allocations@.len()
                ==> self.allocations@[i].0 + self.allocations@[i].1 <= self.allocations@[j].0
    }

    /// Whether some tracked range starts at `start`.
    pub open spec fn has_start(s: Seq<(u64, u64)>, start: u64) -> bool {
        exists|k: int| 0 <= k < s.len() && s[k].0 == start
    }

    /// Relates an aperture before and after a successful reservation of
    /// `size` bytes at address `va` with request alignment `align`: the
    /// bounds are unchanged, the tracked range `[va - guard,
    /// va + size + guard)` lies within `[base, limit]`, starts aligned,
    /// and was inserted into the occupied list with all other entries
    /// kept.
    pub open spec fn reserved_in(pre: Self, post: Self, va: u64, size: int, align: u64) -> bool {
        let g = pre.guard_bytes();
        &&& post.base == pre.base
        &&& post.limit == pre.limit
        &&& post.align == pre.align
        &&& post.guard_pages == pre.guard_pages
        &&& pre.base + g <= va
        &&& va + size + g <= pre.limit
        &&& (va - g) % (pre.eff_align(align) as int) == 0
        &&& exists|k: int|
            0 <= k <= pre.allocations@.len() && post.allocations@
                == #[trigger] pre.allocations@.insert(k, (((va - g) as u64), ((size + 2 * g) as u64)))
    }

    /// Relates an aperture before and after a free of address `addr`:
    /// the bounds are unchanged, and the tracked range starting at
    /// `addr - guard` was removed if present, with everything else kept.
    pub open spec fn freed_in(pre: Self, post: Self, addr: u64) -> bool {
        let g = pre.guard_bytes();
        &&& post.base == pre.base
        &&& post.limit == pre.limit
        &&& post.align == pre.align
        &&& post.guard_pages == pre.guard_pages
        &&& (g > u64::MAX || addr < g) ==> post.allocations@ == pre.allocations@
        &&& (g <= u64::MAX && addr >= g) ==> {
            let tracked_start = (addr - g) as u64;
            if Self::has_start(pre.allocations@, tracked_start) {
                exists|k: int|
                    0 <= k < pre.allocations@.len() && pre.allocations@[k].0 == tracked_start
                        && post.allocations@ == #[trigger] pre.allocations@.remove(k)
            } else {
                post.allocations@ == pre.allocations@
            }
        }
    }

    #[must_use]
    pub fn new(base: u64, limit: u64, align: u64, guard_pages: u64) -> (r: Self)
        requires
            align >= 1,
        ensures
            r.base == base,
            r.limit == limit,
            r.align == align,
            r.guard_pages == guard_pages,
            r.allocations@.len() == 0,
            r.wf(),
    {
        Self { base, limit, align, guard_pages, allocations: Vec::new() }
    }

    /// The effective bytes a reservation occupies: the request plus
    /// both guards.
    pub open spec fn spec_request(self, size: int) -> int {
        size + 2 * self.guard_bytes()
    }

    /// The first-fit scan from entry `i` with an aligned candidate in
    /// hand: take the hole before the next occupied range when it holds
    /// the request, else step the candidate past that range, aligned;
    /// past the last range the tail is taken iff it stays within the
    /// limit.
    pub open spec fn spec_ff_from(
        allocs: Seq<(u64, u64)>,
        i: int,
        candidate: int,
        a: int,
        request: int,
        limit: int,
    ) -> Option<int>
        decreases allocs.len() - i,
    {
        if i < 0 || i >= allocs.len() {
            if candidate + request <= limit {
                Some(candidate)
            } else {
                None
            }
        } else if allocs[i].0 > candidate && allocs[i].0 - candidate >= request {
            Some(candidate)
        } else {
            Self::spec_ff_from(
                allocs,
                i + 1,
                crate::spec_align_up(allocs[i].0 + allocs[i].1, a),
                a,
                request,
                limit,
            )
        }
    }

    /// The tracked start the first-fit scan chooses for this request,
    /// if any hole holds it.
    pub open spec fn spec_first_fit(self, size: int, align: u64) -> Option<int> {
        let a = self.eff_align(align) as int;
        Self::spec_ff_from(
            self.allocations@,
            0,
            crate::spec_align_up(self.base as int, a),
            a,
            self.spec_request(size),
            self.limit as int,
        )
    }

    /// An empty aperture with room below the limit for the aligned
    /// request always has a first fit.
    pub proof fn lemma_empty_first_fit(self, size: int, align: u64)
        requires
            self.wf(),
            self.allocations@.len() == 0,
            self.base + self.eff_align(align) - 1 + self.spec_request(size) <= self.limit,
        ensures
            self.spec_first_fit(size, align) is Some,
    {
        crate::lemma_spec_align_up_bounds(self.base as int, self.eff_align(align) as int);
    }

    /// A reservation followed by a free of its address restores the
    /// occupied list exactly: no virtual-address range leaks across an
    /// allocate/free round trip, which is what lets a drained aperture
    /// serve the same requests again.
    pub proof fn lemma_reserve_free_round_trip(
        pre: Self,
        mid: Self,
        post: Self,
        va: u64,
        size: int,
        align: u64,
    )
        requires
            pre.wf(),
            mid.wf(),
            size >= 1,
            Self::reserved_in(pre, mid, va, size, align),
            Self::freed_in(mid, post, va),
        ensures
            post.allocations@ == pre.allocations@,
            post.base == pre.base,
            post.limit == pre.limit,
            post.align == pre.align,
            post.guard_pages == pre.guard_pages,
    {
        let g = pre.guard_bytes();
        let tracked_start = (va - g) as u64;
        let k = choose|k: int|
            0 <= k <= pre.allocations@.len() && mid.allocations@
                == #[trigger] pre.allocations@.insert(
                k,
                (tracked_start, ((size + 2 * g) as u64)),
            );
        assert(mid.allocations@[k].0 == tracked_start);
        assert(Self::has_start(mid.allocations@, tracked_start));
        let k2 = choose|k2: int|
            0 <= k2 < mid.allocations@.len() && mid.allocations@[k2].0 == tracked_start
                && post.allocations@ == mid.allocations@.remove(k2);
        assert(k2 == k) by {
            if k2 < k {
                assert(mid.allocations@[k2].0 + mid.allocations@[k2].1 <= mid.allocations@[k].0);
                assert(mid.allocations@[k2].1 >= 1);
            } else if k2 > k {
                assert(mid.allocations@[k].0 + mid.allocations@[k].1 <= mid.allocations@[k2].0);
                assert(mid.allocations@[k].1 >= 1);
            }
        }
        assert forall|p: int| 0 <= p < post.allocations@.len() implies post.allocations@[p]
            == pre.allocations@[p] by {
            if p < k {
                assert(post.allocations@[p] == mid.allocations@[p]);
                assert(mid.allocations@[p] == pre.allocations@[p]);
            } else {
                assert(post.allocations@[p] == mid.allocations@[p + 1]);
                assert(mid.allocations@[p + 1] == pre.allocations@[p]);
            }
        }
        assert(post.allocations@ =~= pre.allocations@);
    }

    /// Any two distinct live reservations, guards included, occupy
    /// disjoint tracked ranges.
    pub proof fn lemma_tracked_ranges_disjoint(&self, i: int, j: int)
        requires
            self.wf(),
            0 <= i < self.allocations@.len(),
            0 <= j < self.allocations@.len(),
            i != j,
        ensures
            self.allocations@[i].0 + self.allocations@[i].1 <= self.allocations@[j].0
                || self.allocations@[j].0 + self.allocations@[j].1 <= self.allocations@[i].0,
    {
    }

    /// Every live reservation, guards included, lies within the aperture.
    pub proof fn lemma_tracked_range_in_bounds(&self, i: int)
        requires
            self.wf(),
            0 <= i < self.allocations@.len(),
        ensures
            self.base <= self.allocations@[i].0,
            self.allocations@[i].0 + self.allocations@[i].1 <= self.limit,
    {
    }
}

impl ApertureAllocator for Aperture {
    open spec fn inv(&self) -> bool {
        self.wf()
    }

    /// First-fit search over the sorted occupied ranges.
    ///
    /// The result is pinned to the scan: `Some` exactly when
    /// `spec_first_fit` finds a hole, and then the address is that
    /// hole's tracked start plus the guard bytes.  On `Some(addr)` the
    /// reservation's tracked range `[addr - guard, addr + size + guard)`
    /// lies within `[base, limit]`, its start is aligned to
    /// `max(align, self.align)`, and it was inserted into the sorted
    /// occupied list with every other entry kept.  On `None` nothing
    /// changes.
    ///
    /// The tracked start is what carries the alignment; the returned
    /// address sits one guard past it, so with guard pages the address
    /// itself is aligned only when the guard bytes are a multiple of
    /// the requested alignment — which holds for every page-sized
    /// alignment this process uses.
    fn allocate_va(&mut self, size: usize, align: usize) -> (r: Option<u64>)
        ensures
            final(self).wf(),
            final(self).base == old(self).base,
            final(self).limit == old(self).limit,
            final(self).align == old(self).align,
            final(self).guard_pages == old(self).guard_pages,
            r is None ==> final(self).allocations@ == old(self).allocations@,
            r is Some ==> Aperture::reserved_in(*old(self), *final(self), r->0, size as int, align as u64),
            r is Some <==> old(self).spec_first_fit(size as int, align as u64) is Some,
            r is Some ==> r->0 == old(self).spec_first_fit(size as int, align as u64)->0 + old(
                self,
            ).guard_bytes(),
            (old(self).allocations@.len() == 0 && old(self).base + old(self).eff_align(
                align as u64,
            ) - 1 + size + 2 * old(self).guard_bytes() <= old(self).limit) ==> r is Some,
    {
        let a64: u64 = if (align as u64) > self.align {
            align as u64
        } else {
            self.align
        };
        let a: u128 = a64 as u128;
        let guard: u128 = (self.guard_pages as u128) * 4096;
        let request: u128 = (size as u128) + 2 * guard;
        let limit: u128 = self.limit as u128;
        let mut candidate: u128 = align_up_u128(self.base as u128, a);
        proof {
            crate::lemma_spec_align_up_bounds(self.base as int, a as int);
        }

        let ghost orig = *self;
        let n = self.allocations.len();
        let mut i: usize = 0;
        while i < n
            invariant
                orig == *old(self),
                *self == orig,
                self.wf(),
                n == self.allocations@.len(),
                0 <= i <= n,
                n == 0 ==> candidate < orig.base + a,
                a == orig.eff_align(align as u64),
                a64 == a,
                a >= 1,
                guard == orig.guard_bytes(),
                request == orig.spec_request(size as int),
                limit == orig.limit,
                size >= 1,
                candidate % a == 0,
                candidate >= orig.base,
                candidate < 0x2_0000_0000_0000_0000u128,
                orig.spec_first_fit(size as int, align as u64) == Aperture::spec_ff_from(
                    orig.allocations@,
                    i as int,
                    candidate as int,
                    a as int,
                    request as int,
                    orig.limit as int,
                ),
                forall|j: int|
                    #![trigger self.allocations@[j]]
                    0 <= j < i ==> self.allocations@[j].0 + self.allocations@[j].1 <= candidate,
            decreases n - i,
        {
            let (s, z) = self.allocations[i];
            let s128: u128 = s as u128;
            if s128 > candidate && s128 - candidate >= request {
                let tracked_start: u64 = candidate as u64;
                let eff_size: u64 = request as u64;
                self.allocations.insert(i, (tracked_start, eff_size));
                proof {
                    let ns = self.allocations@;
                    let os = orig.allocations@;
                    assert forall|p: int, q: int|
                        0 <= p < q < ns.len() implies #[trigger] ns[p].0 + ns[p].1
                        <= #[trigger] ns[q].0 by {
                        if p < i && q == i {
                        } else if p == i && q > i {
                        } else if p < i && q > i {
                            assert(os[p] == ns[p] && os[q - 1] == ns[q]);
                        } else if p < i && q < i {
                            assert(os[p] == ns[p] && os[q] == ns[q]);
                        } else if p > i && q > i {
                            assert(os[p - 1] == ns[p] && os[q - 1] == ns[q]);
                        }
                    }
                    assert(s + z <= orig.limit && z >= 1);
                    assert(candidate + request <= orig.limit);
                }
                let addr_ret: u64 = (candidate + guard) as u64;
                proof {
                    assert(((addr_ret - orig.guard_bytes()) as u64) == tracked_start);
                    assert(((size + 2 * orig.guard_bytes()) as u64) == eff_size);
                    assert(self.allocations@ == orig.allocations@.insert(
                        i as int,
                        (
                            ((addr_ret - orig.guard_bytes()) as u64),
                            ((size + 2 * orig.guard_bytes()) as u64),
                        ),
                    ));
                }
                return Some(addr_ret);
            }
            let next: u128 = align_up_u128(s128 + (z as u128), a);
            proof {
                crate::lemma_spec_align_up_bounds((s + z) as int, a as int);
                assert forall|j: int| 0 <= j < i + 1 implies #[trigger] self.allocations@[j].0
                    + self.allocations@[j].1 <= next by {
                    if j < i {
                        assert(self.allocations@[j].0 + self.allocations@[j].1
                            <= self.allocations@[i as int].0);
                    }
                }
            }
            candidate = next;
            i = i + 1;
        }

        if candidate + request <= limit {
            let tracked_start: u64 = candidate as u64;
            let eff_size: u64 = request as u64;
            let ghost k = self.allocations@.len() as int;
            self.allocations.insert(n, (tracked_start, eff_size));
            proof {
                let ns = self.allocations@;
                let os = orig.allocations@;
                assert(ns == os.insert(k, (tracked_start, eff_size)));
                assert forall|p: int, q: int|
                    0 <= p < q < ns.len() implies #[trigger] ns[p].0 + ns[p].1
                    <= #[trigger] ns[q].0 by {
                    if q < k {
                        assert(os[p] == ns[p] && os[q] == ns[q]);
                    } else {
                        assert(q == k && os[p] == ns[p]);
                    }
                }
            }
            let addr_ret: u64 = (candidate + guard) as u64;
            proof {
                assert(((addr_ret - orig.guard_bytes()) as u64) == tracked_start);
                assert(((size + 2 * orig.guard_bytes()) as u64) == eff_size);
                assert(self.allocations@ == orig.allocations@.insert(
                    k,
                    (
                        ((addr_ret - orig.guard_bytes()) as u64),
                        ((size + 2 * orig.guard_bytes()) as u64),
                    ),
                ));
            }
            return Some(addr_ret);
        }
        None
    }

    /// Removes the tracked range that starts at `addr - guard_bytes`.
    ///
    /// If no tracked range starts there — including when `addr` is below
    /// the guard offset — the aperture is left unchanged, as a free of an
    /// untracked address is tolerated rather than fatal.
    fn free_va(&mut self, addr: u64, _size: usize)
        ensures
            final(self).wf(),
            final(self).base == old(self).base,
            final(self).limit == old(self).limit,
            final(self).align == old(self).align,
            final(self).guard_pages == old(self).guard_pages,
            Aperture::freed_in(*old(self), *final(self), addr),
    {
        if self.guard_pages > u64::MAX / 4096 {
            return;
        }
        let guard: u64 = self.guard_pages * 4096;
        if addr < guard {
            return;
        }
        let tracked_start: u64 = addr - guard;

        let ghost orig = *self;
        let n = self.allocations.len();
        let mut i: usize = 0;
        while i < n
            invariant
                orig == *old(self),
                *self == orig,
                self.wf(),
                n == self.allocations@.len(),
                0 <= i <= n,
                guard == orig.guard_bytes(),
                addr >= guard,
                tracked_start == addr - guard,
                forall|j: int|
                    #![trigger self.allocations@[j]]
                    0 <= j < i ==> self.allocations@[j].0 != tracked_start,
            decreases n - i,
        {
            if self.allocations[i].0 == tracked_start {
                self.allocations.remove(i);
                proof {
                    let ns = self.allocations@;
                    let os = orig.allocations@;
                    assert forall|p: int, q: int|
                        0 <= p < q < ns.len() implies #[trigger] ns[p].0 + ns[p].1
                        <= #[trigger] ns[q].0 by {
                        if q < i {
                            assert(os[p] == ns[p] && os[q] == ns[q]);
                        } else if p < i {
                            assert(os[p] == ns[p] && os[q + 1] == ns[q]);
                        } else {
                            assert(os[p + 1] == ns[p] && os[q + 1] == ns[q]);
                        }
                    }
                    assert forall|p: int| 0 <= p < ns.len() implies #[trigger] ns[p].1 >= 1
                        && orig.base <= ns[p].0 && ns[p].0 + ns[p].1 <= orig.limit by {
                        if p < i {
                            assert(os[p] == ns[p]);
                        } else {
                            assert(os[p + 1] == ns[p]);
                        }
                    }
                }
                return;
            }
            i = i + 1;
        }
    }

    fn bounds(&self) -> (r: (u64, u64))
        ensures
            r.0 == self.base,
            r.1 == self.limit,
    {
        (self.base, self.limit)
    }
}

} // verus!
