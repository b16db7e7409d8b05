//! Kernel event bookkeeping: creation records, signaled state, and the
//! wait semantics over a set of events.
//!
//! The manager mirrors the kernel's event-slot state from the calls the
//! process itself makes: `set_event` signals a slot, `reset_event`
//! clears it, a wait observes the signaled slots and clears the
//! auto-reset ones among them, while manual-reset events stay signaled
//! across waits.  The caller issues the matching ioctls around these
//! verified transitions; a wait outcome here is the outcome when no
//! other signal arrives within the timeout.

use vstd::prelude::*;
use crate::error::{HsaError, HsaResult};
use crate::ioctl::CreateEventArgs;

verus! {

/// The OS error number the kernel answers with for an unknown event id.
pub const EINVAL_ERRNO: i32 = 22;

/// One live kernel event.
#[derive(Debug, Clone, Copy, PartialEq, Eq, Structural)]
pub struct Event {
    /// Kernel-assigned event id.
    pub event_id: u32,
    /// Kernel slot index in the event page.
    pub slot_index: u32,
    /// GPU/mailbox address of the event-page slot.
    pub hw_data2: u64,
    /// Whether a wait that observes the event clears it.
    pub auto_reset: bool,
    /// Whether the event is currently signaled.
    pub signaled: bool,
}

/// Whether some event in `s` carries `id`.
pub open spec fn has_event(s: Seq<Event>, id: u32) -> bool {
    exists|k: int| 0 <= k < s.len() && s[k].event_id == id
}

/// Whether the event carrying `id` is signaled.
pub open spec fn spec_signaled(s: Seq<Event>, id: u32) -> bool {
    exists|k: int| 0 <= k < s.len() && s[k].event_id == id && s[k].signaled
}

/// Whether `id` occurs in a wait set.
pub open spec fn id_in(ids: Seq<u32>, id: u32) -> bool {
    exists|j: int| 0 <= j < ids.len() && ids[j] == id
}

/// Whether index `j` occurs in a hit list.
pub open spec fn index_in(v: Seq<usize>, j: int) -> bool {
    exists|i: int| 0 <= i < v.len() && v[i] == j
}

/// Assembles the create-event request for the kernel.
pub fn build_create_event_args(
    event_type: u32,
    node_id: u32,
    auto_reset: bool,
    event_page_offset: u64,
) -> (r: CreateEventArgs)
    ensures
        r.event_type == event_type,
        r.node_id == node_id,
        r.auto_reset == if auto_reset {
            1u32
        } else {
            0u32
        },
        r.event_page_offset == event_page_offset,
        r.event_trigger_data == 0,
        r.event_id == 0,
        r.event_slot_index == 0,
    {
    CreateEventArgs {
        event_page_offset,
        event_trigger_data: 0,
        event_type,
        auto_reset: if auto_reset {
            1
        } else {
            0
        },
        node_id,
        event_id: 0,
        event_slot_index: 0,
    }
}

/// Every event with this id cleared.
pub open spec fn spec_reset_events(s: Seq<Event>, id: u32) -> Seq<Event> {
    Seq::new(
        s.len(),
        |k: int|
            if s[k].event_id == id {
                Event { signaled: false, ..s[k] }
            } else {
                s[k]
            },
    )
}

/// Resetting an event is idempotent: a second reset leaves exactly the
/// state the first one left.
pub proof fn lemma_reset_event_idempotent(s: Seq<Event>, id: u32)
    ensures
        spec_reset_events(spec_reset_events(s, id), id) =~= spec_reset_events(s, id),
{
}

/// Tracks the events this process created.
#[derive(Debug, Clone, PartialEq, Eq)]
pub struct EventManager {
    pub events: Vec<Event>,
}

impl EventManager {
    /// Event ids occur once.
    pub open spec fn wf(&self) -> bool {
        forall|i: int, j: int|
            #![trigger self.events@[i], self.events@[j]]
            0 <= i < j < self.events@.len() ==> self.events@[i].event_id
                != self.events@[j].event_id
    }

    #[must_use]
    pub fn new() -> (r: Self)
        ensures
            r.events@.len() == 0,
            r.wf(),
    {
        EventManager { events: Vec::new() }
    }

    /// Index of the event carrying `id`, if any.
    fn find_event(&self, id: u32) -> (r: Option<usize>)
        ensures
            match r {
                Some(k) => 0 <= k < self.events@.len() && self.events@[k as int].event_id == id,
                None => !has_event(self.events@, id),
            },
    {
        let n = self.events.len();
        let mut i: usize = 0;
        while i < n
            invariant
                n == self.events@.len(),
                0 <= i <= n,
                forall|k: int| 0 <= k < i ==> (#[trigger] self.events@[k]).event_id != id,
            decreases n - i,
        {
            if self.events[i].event_id == id {
                return Some(i);
            }
            i = i + 1;
        }
        None
    }

    /// Records an event the kernel just created.
    ///
    /// A record with the same id, if any, is replaced, as the kernel
    /// has recycled the id.
    pub fn register_event(&mut self, ev: Event)
        requires
            old(self).wf(),
        ensures
            final(self).wf(),
            has_event(final(self).events@, ev.event_id),
            exists|k: int|
                0 <= k < final(self).events@.len() && final(self).events@[k] == ev,
            (exists|k: int|
                0 <= k < old(self).events@.len() && (#[trigger] old(self).events@[k]).event_id
                    == ev.event_id && final(self).events@ == old(self).events@.update(k, ev)) || ((
            forall|k: int|
                0 <= k < old(self).events@.len() ==> (#[trigger] old(self).events@[k]).event_id
                    != ev.event_id) && final(self).events@ == old(self).events@.push(ev)),
    {
        let kopt = self.find_event(ev.event_id);
        match kopt {
            Some(k) => {
                let ghost pre = self.events@;
                self.events.remove(k);
                self.events.insert(k, ev);
                proof {
                    assert(self.events@ =~= pre.update(k as int, ev));
                    assert(self.events@[k as int] == ev);
                }
            },
            None => {
                let ghost pre = self.events@;
                self.events.push(ev);
                proof {
                    assert(self.events@[pre.len() as int] == ev);
                }
            },
        }
    }

    /// Signals an event.  An unknown id gets the kernel's own answer:
    /// `EINVAL`.
    pub fn set_event(&mut self, event_id: u32) -> (r: HsaResult<()>)
        requires
            old(self).wf(),
        ensures
            final(self).wf(),
            r is Ok <==> has_event(old(self).events@, event_id),
            r is Err ==> r == Err::<(), HsaError>(HsaError::Io(EINVAL_ERRNO)) && final(self).events@ == old(self).events@,
            r is Ok ==> {
                &&& final(self).events@.len() == old(self).events@.len()
                &&& forall|k: int|
                    #![trigger final(self).events@[k]]
                    0 <= k < old(self).events@.len() ==> final(self).events@[k] == if old(self).events@[k].event_id == event_id {
                        Event { signaled: true, ..old(self).events@[k] }
                    } else {
                        old(self).events@[k]
                    }
            },
    {
        let kopt = self.find_event(event_id);
        match kopt {
            None => Err(HsaError::Io(EINVAL_ERRNO)),
            Some(k) => {
                let ghost pre = self.events@;
                let mut ev = self.events.remove(k);
                ev.signaled = true;
                self.events.insert(k, ev);
                proof {
                    assert(self.events@ =~= pre.update(k as int, ev));
                }
                Ok(())
            },
        }
    }

    /// Clears an event's signaled state.  Resetting twice leaves the
    /// event exactly as one reset does.
    pub fn reset_event(&mut self, event_id: u32) -> (r: HsaResult<()>)
        requires
            old(self).wf(),
        ensures
            final(self).wf(),
            r is Ok <==> has_event(old(self).events@, event_id),
            r is Err ==> r == Err::<(), HsaError>(HsaError::Io(EINVAL_ERRNO)) && final(self).events@ == old(self).events@,
            r is Ok ==> {
                &&& final(self).events@.len() == old(self).events@.len()
                &&& forall|k: int|
                    #![trigger final(self).events@[k]]
                    0 <= k < old(self).events@.len() ==> final(self).events@[k] == if old(self).events@[k].event_id == event_id {
                        Event { signaled: false, ..old(self).events@[k] }
                    } else {
                        old(self).events@[k]
                    }
            },
    {
        let kopt = self.find_event(event_id);
        match kopt {
            None => Err(HsaError::Io(EINVAL_ERRNO)),
            Some(k) => {
                let ghost pre = self.events@;
                let mut ev = self.events.remove(k);
                ev.signaled = false;
                self.events.insert(k, ev);
                proof {
                    assert(self.events@ =~= pre.update(k as int, ev));
                }
                Ok(())
            },
        }
    }

    /// Destroys an event.  The first call succeeds and forgets the
    /// record; a second call with the same id gets `EINVAL`.
    pub fn destroy_event(&mut self, event_id: u32) -> (r: HsaResult<()>)
        requires
            old(self).wf(),
        ensures
            final(self).wf(),
            r is Ok <==> has_event(old(self).events@, event_id),
            r is Err ==> r == Err::<(), HsaError>(HsaError::Io(EINVAL_ERRNO)) && final(self).events@ == old(self).events@,
            r is Ok ==> exists|k: int|
                0 <= k < old(self).events@.len() && (#[trigger] old(self).events@[k]).event_id
                    == event_id && final(self).events@ == old(self).events@.remove(k),
            r is Ok ==> !has_event(final(self).events@, event_id),
    {
        let kopt = self.find_event(event_id);
        match kopt {
            None => Err(HsaError::Io(EINVAL_ERRNO)),
            Some(k) => {
                let ghost pre = self.events@;
                self.events.remove(k);
                proof {
                    assert(self.events@ == pre.remove(k as int));
                    assert forall|q: int|
                        0 <= q < self.events@.len() implies (#[trigger] self.events@[q]).event_id
                        != event_id by {
                        if q < k {
                            assert(self.events@[q] == pre[q]);
                        } else {
                            assert(self.events@[q] == pre[q + 1]);
                        }
                    }
                }
                Ok(())
            },
        }
    }

    /// Waits on a set of events.
    ///
    /// Returns the ascending positions of the signaled events when the
    /// wait is satisfied — every event for a wait-all, at least one
    /// otherwise; the auto-reset events among the observed ones clear,
    /// and manual-reset events stay signaled.  An unknown id gets
    /// `EINVAL`.  When no named event is signaled, the outcome — at
    /// once for a zero timeout, after the timeout otherwise — is
    /// `WaitTimeout`, with nothing changed.
    pub fn wait_on_multiple_events(
        &mut self,
        event_ids: &Vec<u32>,
        wait_all: bool,
        _timeout_ms: u32,
    ) -> (r: HsaResult<Vec<usize>>)
        requires
            old(self).wf(),
        ensures
            final(self).wf(),
            (exists|j: int|
                0 <= j < event_ids@.len() && !has_event(
                    old(self).events@,
                    #[trigger] event_ids@[j],
                )) ==> r == Err::<Vec<usize>, HsaError>(HsaError::Io(EINVAL_ERRNO)) && final(self).events@ == old(self).events@,
            r is Err ==> final(self).events@ == old(self).events@,
            (forall|j: int|
                0 <= j < event_ids@.len() ==> has_event(
                    old(self).events@,
                    #[trigger] event_ids@[j],
                )) ==> {
                &&& (r is Ok <==> (if wait_all {
                    forall|j: int|
                        0 <= j < event_ids@.len() ==> spec_signaled(
                            old(self).events@,
                            #[trigger] event_ids@[j],
                        )
                } else {
                    exists|j: int|
                        0 <= j < event_ids@.len() && spec_signaled(
                            old(self).events@,
                            #[trigger] event_ids@[j],
                        )
                }))
                &&& (r is Err ==> r == Err::<Vec<usize>, HsaError>(HsaError::WaitTimeout))
            },
            r is Ok ==> {
                let v = r->Ok_0;
                &&& forall|a: int, b: int| 0 <= a < b < v@.len() ==> v@[a] < v@[b]
                &&& forall|j: int|
                    0 <= j < event_ids@.len() ==> (index_in(v@, j) <==> spec_signaled(
                        old(self).events@,
                        #[trigger] event_ids@[j],
                    ))
                &&& forall|i: int| 0 <= i < v@.len() ==> 0 <= #[trigger] v@[i] < event_ids@.len()
                &&& final(self).events@.len() == old(self).events@.len()
                &&& forall|k: int|
                    #![trigger final(self).events@[k]]
                    0 <= k < old(self).events@.len() ==> final(self).events@[k] == if old(self).events@[k].auto_reset && old(self).events@[k].signaled && id_in(
                        event_ids@,
                        old(self).events@[k].event_id,
                    ) {
                        Event { signaled: false, ..old(self).events@[k] }
                    } else {
                        old(self).events@[k]
                    }
            },
    {
        let n = event_ids.len();

        // Reject unknown ids as the kernel would.
        let mut j: usize = 0;
        while j < n
            invariant
                n == event_ids@.len(),
                0 <= j <= n,
                *self == *old(self),
                old(self).wf(),
                forall|q: int|
                    0 <= q < j ==> has_event(self.events@, #[trigger] event_ids@[q]),
            decreases n - j,
        {
            if self.find_event(event_ids[j]).is_none() {
                return Err(HsaError::Io(EINVAL_ERRNO));
            }
            j = j + 1;
        }

        // Observe: collect the positions whose event is signaled.
        let mut v: Vec<usize> = Vec::new();
        let mut j: usize = 0;
        while j < n
            invariant
                n == event_ids@.len(),
                0 <= j <= n,
                *self == *old(self),
                old(self).wf(),
                forall|q: int|
                    0 <= q < n ==> has_event(self.events@, #[trigger] event_ids@[q]),
                forall|a: int, b: int| 0 <= a < b < v@.len() ==> v@[a] < v@[b],
                forall|i: int| 0 <= i < v@.len() ==> 0 <= #[trigger] v@[i] < j,
                forall|q: int|
                    0 <= q < j ==> (index_in(v@, q) <==> spec_signaled(
                        self.events@,
                        #[trigger] event_ids@[q],
                    )),
            decreases n - j,
        {
            let kopt = self.find_event(event_ids[j]);
            let ghost prev = v@;
            match kopt {
                Some(k) => {
                    if self.events[k].signaled {
                        proof {
                            assert(spec_signaled(self.events@, event_ids@[j as int]));
                        }
                        v.push(j);
                        proof {
                            assert(v@[prev.len() as int] == j);
                        }
                    } else {
                        proof {
                            assert forall|k2: int|
                                0 <= k2 < self.events@.len() && (
                                #[trigger] self.events@[k2]).event_id == event_ids@[j as int]
                                implies !self.events@[k2].signaled by {
                                assert(self.events@[k2].event_id
                                    == self.events@[k as int].event_id);
                            }
                        }
                    }
                },
                None => {
                    proof {
                        assert(false);
                    }
                },
            }
            proof {
                assert forall|q: int| 0 <= q < j + 1 implies (index_in(v@, q)
                    <==> spec_signaled(self.events@, #[trigger] event_ids@[q])) by {
                    if q < j {
                        if index_in(prev, q) {
                            let i = choose|i: int| 0 <= i < prev.len() && prev[i] == q;
                            assert(v@[i] == q);
                        }
                        if index_in(v@, q) {
                            let i = choose|i: int| 0 <= i < v@.len() && v@[i] == q;
                            assert(i < prev.len() || v@[i] == j);
                            if i < prev.len() {
                                assert(prev[i] == q);
                            }
                        }
                    }
                }
            }
            j = j + 1;
        }

        let satisfied = if wait_all {
            v.len() == n
        } else {
            v.len() > 0
        };
        proof {
            if wait_all {
                if v@.len() == n {
                    assert forall|q: int| 0 <= q < n implies spec_signaled(
                        self.events@,
                        #[trigger] event_ids@[q],
                    ) by {
                        lemma_full_ascending_hits(v@, n as int, q);
                    }
                } else {
                    if forall|q: int|
                        0 <= q < n ==> spec_signaled(self.events@, #[trigger] event_ids@[q]) {
                        assert forall|q: int| 0 <= q < n implies index_in(v@, q) by {
                            assert(spec_signaled(self.events@, event_ids@[q]));
                        }
                        lemma_hits_need_length(v@, n as int);
                        lemma_ascending_len(v@, n as int);
                        assert(v@.len() == n);
                    }
                }
            } else {
                if v@.len() > 0 {
                    assert(index_in(v@, v@[0] as int));
                    assert(0 <= v@[0] < n);
                    assert(spec_signaled(self.events@, event_ids@[v@[0] as int]));
                }
                if exists|q: int|
                    0 <= q < n && spec_signaled(self.events@, #[trigger] event_ids@[q]) {
                    let q = choose|q: int|
                        0 <= q < n && spec_signaled(self.events@, #[trigger] event_ids@[q]);
                    assert(index_in(v@, q));
                    let i = choose|i: int| 0 <= i < v@.len() && v@[i] == q;
                    assert(v@.len() > 0);
                }
            }
        }
        if !satisfied {
            return Err(HsaError::WaitTimeout);
        }

        // Auto-reset events among the observed signaled ones clear.
        let m = self.events.len();
        let mut out: Vec<Event> = Vec::new();
        let mut k: usize = 0;
        while k < m
            invariant
                m == self.events@.len(),
                0 <= k <= m,
                *self == *old(self),
                old(self).wf(),
                n == event_ids@.len(),
                out@.len() == k,
                forall|q: int|
                    #![trigger out@[q]]
                    0 <= q < k ==> out@[q] == if self.events@[q].auto_reset
                        && self.events@[q].signaled && id_in(
                        event_ids@,
                        self.events@[q].event_id,
                    ) {
                        Event { signaled: false, ..self.events@[q] }
                    } else {
                        self.events@[q]
                    },
            decreases m - k,
        {
            let ev = self.events[k];
            let mut hit = false;
            let mut j2: usize = 0;
            while j2 < n
                invariant
                    n == event_ids@.len(),
                    0 <= j2 <= n,
                    hit <==> exists|q: int| 0 <= q < j2 && event_ids@[q] == ev.event_id,
                decreases n - j2,
            {
                if event_ids[j2] == ev.event_id {
                    hit = true;
                }
                j2 = j2 + 1;
            }
            if ev.auto_reset && ev.signaled && hit {
                out.push(Event { signaled: false, ..ev });
            } else {
                out.push(ev);
            }
            k = k + 1;
        }
        proof {
            assert forall|i: int, j3: int| 0 <= i < j3 < out@.len() implies out@[i].event_id
                != out@[j3].event_id by {
                assert(out@[i].event_id == self.events@[i].event_id);
                assert(out@[j3].event_id == self.events@[j3].event_id);
            }
        }
        self.events = out;
        Ok(v)
    }
}

/// In a strictly ascending list of `n` indices below `n`, every index
/// below `n` occurs — the list is the identity.
proof fn lemma_full_ascending_hits(v: Seq<usize>, n: int, q: int)
    requires
        v.len() == n,
        forall|a: int, b: int| 0 <= a < b < v.len() ==> v[a] < v[b],
        forall|i: int| 0 <= i < v.len() ==> 0 <= #[trigger] v[i] < n,
        0 <= q < n,
    ensures
        index_in(v, q),
{
    lemma_ascending_lower_bound(v, q);
    lemma_ascending_upper_bound(v, n, q);
    assert(v[q] == q);
}

/// In a strictly ascending list, the value at position `i` is at least `i`.
proof fn lemma_ascending_lower_bound(v: Seq<usize>, i: int)
    requires
        forall|a: int, b: int| 0 <= a < b < v.len() ==> v[a] < v[b],
        0 <= i < v.len(),
    ensures
        v[i] >= i,
    decreases i,
{
    if i > 0 {
        lemma_ascending_lower_bound(v, i - 1);
        assert(v[i - 1] < v[i]);
    }
}

/// In a strictly ascending list of `n` values below `n`, the value at
/// position `i` is at most `i`.
proof fn lemma_ascending_upper_bound(v: Seq<usize>, n: int, i: int)
    requires
        v.len() == n,
        forall|a: int, b: int| 0 <= a < b < v.len() ==> v[a] < v[b],
        forall|k: int| 0 <= k < v.len() ==> 0 <= #[trigger] v[k] < n,
        0 <= i < n,
    ensures
        v[i] <= i,
    decreases n - i,
{
    if i == n - 1 {
        assert(v[i] < n);
    } else {
        lemma_ascending_upper_bound(v, n, i + 1);
        assert(v[i] < v[i + 1]);
    }
}

/// A strictly ascending list of values below `n` has at most `n`
/// entries.
proof fn lemma_ascending_len(v: Seq<usize>, n: int)
    requires
        forall|a: int, b: int| 0 <= a < b < v.len() ==> v[a] < v[b],
        forall|i: int| 0 <= i < v.len() ==> 0 <= #[trigger] v[i] < n,
        n >= 0,
    ensures
        v.len() <= n,
{
    if v.len() > 0 {
        lemma_ascending_lower_bound(v, v.len() - 1);
    }
}

/// A strictly ascending list of values below `n` that hits every one of
/// the `n` positions has at least `n` entries.
proof fn lemma_hits_need_length(v: Seq<usize>, n: int)
    requires
        forall|a: int, b: int| 0 <= a < b < v.len() ==> v[a] < v[b],
        forall|i: int| 0 <= i < v.len() ==> 0 <= #[trigger] v[i] < n,
        forall|q: int| 0 <= q < n ==> index_in(v, q),
        n >= 0,
    ensures
        v.len() >= n,
    decreases n,
{
    if n > 0 {
        assert(index_in(v, n - 1));
        let i = choose|i: int| 0 <= i < v.len() && v[i] == n - 1;
        assert(i == v.len() - 1) by {
            if i < v.len() - 1 {
                assert(v[i] < v[i + 1]);
                assert(v[i + 1] < n);
            }
        }
        let w = v.drop_last();
        assert forall|q: int| 0 <= q < n - 1 implies index_in(w, q) by {
            assert(index_in(v, q));
            let x = choose|x: int| 0 <= x < v.len() && v[x] == q;
            assert(x < i) by {
                if x > i {
                    assert(v[i] < v[x]);
                }
            }
            assert(w[x] == q);
        }
        assert forall|a: int, b: int| 0 <= a < b < w.len() implies w[a] < w[b] by {
            assert(v[a] == w[a] && v[b] == w[b]);
        }
        assert forall|x: int| 0 <= x < w.len() implies 0 <= #[trigger] w[x] < n - 1 by {
            assert(w[x] == v[x]);
            assert(v[x] < v[i]);
        }
        lemma_hits_need_length(w, n - 1);
    }
}

} // verus!
