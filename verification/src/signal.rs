//! Signals: the 128-byte GPU-visible signal block, the slot pool, the
//! atomic-operation state transitions, and the spin-to-sleep wait
//! decisions.
//!
//! A live signal's block sits in unified memory and is raced by the
//! GPU and other threads; this module holds the sequential state logic
//! of every operation — what the new value is, and whether the backing
//! event must be raised — while the caller performs the actual atomic
//! access, fences and event ioctls with these verified transitions.

use vstd::prelude::*;

verus! {

pub type HsaSignalValue = i64;

/// The magic stamped into every signal block's `id` word.
pub const SIGNAL_MAGIC: u64 = 0x71FC_CA6A_3D5D_5276;

/// Byte offset of the `value` word inside the signal block.
pub const SIGNAL_VALUE_OFFSET: u64 = 8;

/// Byte size of one signal slot.
pub const SIGNAL_SLOT_BYTES: u64 = 128;

/// Byte size of the GPU-packet-processor visible part.
pub const AMD_SIGNAL_BYTES: u64 = 64;

#[derive(Debug, Clone, Copy, PartialEq, Eq, Structural)]
pub enum HsaSignalCondition {
    Eq,
    Ne,
    Lt,
    Gte,
}

#[derive(Debug, Clone, Copy, PartialEq, Eq, Structural)]
pub enum HsaWaitState {
    Blocked,
    Active,
}

/// Whether `value` satisfies the wait condition against
/// `compare_value`.
pub open spec fn spec_check_condition(
    value: i64,
    condition: HsaSignalCondition,
    compare_value: i64,
) -> bool {
    match condition {
        HsaSignalCondition::Eq => value == compare_value,
        HsaSignalCondition::Ne => value != compare_value,
        HsaSignalCondition::Lt => value < compare_value,
        HsaSignalCondition::Gte => value >= compare_value,
    }
}

pub fn check_condition(value: i64, condition: HsaSignalCondition, compare_value: i64) -> (r: bool)
    ensures
        r == spec_check_condition(value, condition, compare_value),
{
    match condition {
        HsaSignalCondition::Eq => value == compare_value,
        HsaSignalCondition::Ne => value != compare_value,
        HsaSignalCondition::Lt => value < compare_value,
        HsaSignalCondition::Gte => value >= compare_value,
    }
}

#[derive(Debug, Clone, Copy, PartialEq, Eq, Structural)]
pub enum AmdSignalKind {
    Invalid,
    User,
    Doorbell,
    LegacyDoorbell,
}

/// The `kind` word of each signal kind: 1 user, -1 doorbell, -2 legacy
/// doorbell, 0 invalid.
pub open spec fn spec_signal_kind_value(k: AmdSignalKind) -> i64 {
    match k {
        AmdSignalKind::Invalid => 0i64,
        AmdSignalKind::User => 1i64,
        AmdSignalKind::Doorbell => -1i64,
        AmdSignalKind::LegacyDoorbell => -2i64,
    }
}

pub fn signal_kind_value(k: AmdSignalKind) -> (r: i64)
    ensures
        r == spec_signal_kind_value(k),
{
    match k {
        AmdSignalKind::Invalid => 0i64,
        AmdSignalKind::User => 1i64,
        AmdSignalKind::Doorbell => -1i64,
        AmdSignalKind::LegacyDoorbell => -2i64,
    }
}

/// The GPU-visible first 64 bytes of a signal block.
#[derive(Debug, Clone, Copy, PartialEq, Eq, Structural)]
pub struct AmdSignal {
    pub kind: i64,
    pub value: i64,
    pub event_mailbox_ptr: u64,
    pub event_id: u32,
    pub reserved1: u32,
    pub start_ts: u64,
    pub end_ts: u64,
    pub queue_ptr: u64,
    pub reserved3_0: u32,
    pub reserved3_1: u32,
}

/// The full 128-byte signal block: the GPU-visible half followed by
/// runtime words.
#[derive(Debug, Clone, Copy, PartialEq, Eq, Structural)]
pub struct SharedSignal {
    pub amd_signal: AmdSignal,
    pub sdma_start_ts: u64,
    pub core_signal: u64,
    pub id: u64,
    pub sdma_end_ts: u64,
}

/// A signal: its block state, its slot address, its backing event, and
/// the waiter count.
#[derive(Debug, Clone, Copy, PartialEq, Eq, Structural)]
pub struct Signal {
    /// The state of the 128-byte slot.
    pub shared: SharedSignal,
    /// GPU virtual address of the slot.
    pub gpu_base_va: u64,
    /// Id of the backing kernel event.
    pub event_id: u32,
    /// Mailbox address of the backing event.
    pub event_hw_data2: u64,
    /// Number of threads currently waiting on this signal.
    pub waiting: u32,
    /// Agent handle of an asynchronous copy bound to this signal.
    pub async_copy_agent: u64,
}

impl Signal {
    /// Initializes a signal in a pool slot.
    ///
    /// The block is zeroed but for: the kind word of `kind`, the initial
    /// value, the backing event's id and mailbox address, the queue
    /// pointer of doorbell signals, and the magic `id` stamp.
    pub fn new(
        initial_value: i64,
        kind: AmdSignalKind,
        queue_ptr: u64,
        gpu_base_va: u64,
        event_id: u32,
        event_hw_data2: u64,
    ) -> (r: Signal)
        ensures
            r.shared.amd_signal.kind == spec_signal_kind_value(kind),
            r.shared.amd_signal.value == initial_value,
            r.shared.amd_signal.event_id == event_id,
            r.shared.amd_signal.event_mailbox_ptr == event_hw_data2,
            r.shared.amd_signal.queue_ptr == queue_ptr,
            r.shared.amd_signal.start_ts == 0,
            r.shared.amd_signal.end_ts == 0,
            r.shared.id == SIGNAL_MAGIC,
            r.shared.sdma_start_ts == 0,
            r.shared.sdma_end_ts == 0,
            r.shared.core_signal == 0,
            r.gpu_base_va == gpu_base_va,
            r.event_id == event_id,
            r.event_hw_data2 == event_hw_data2,
            r.waiting == 0,
            r.async_copy_agent == 0,
    {
        Signal {
            shared: SharedSignal {
                amd_signal: AmdSignal {
                    kind: signal_kind_value(kind),
                    value: initial_value,
                    event_mailbox_ptr: event_hw_data2,
                    event_id,
                    reserved1: 0,
                    start_ts: 0,
                    end_ts: 0,
                    queue_ptr,
                    reserved3_0: 0,
                    reserved3_1: 0,
                },
                sdma_start_ts: 0,
                core_signal: 0,
                id: SIGNAL_MAGIC,
                sdma_end_ts: 0,
            },
            gpu_base_va,
            event_id,
            event_hw_data2,
            waiting: 0,
            async_copy_agent: 0,
        }
    }

    /// Address of the value word: always 8 bytes past the block base.
    pub fn value_gpu_address(&self) -> (r: u64)
        requires
            self.gpu_base_va + SIGNAL_VALUE_OFFSET <= u64::MAX,
        ensures
            r == self.gpu_base_va + SIGNAL_VALUE_OFFSET,
    {
        self.gpu_base_va + SIGNAL_VALUE_OFFSET
    }

    pub fn signal_handle_gpu_va(&self) -> (r: u64)
        ensures
            r == self.gpu_base_va,
    {
        self.gpu_base_va
    }

    /// The current value under the signal's own ordering.
    pub fn load_relaxed(&self) -> (r: i64)
        ensures
            r == self.shared.amd_signal.value,
    {
        self.shared.amd_signal.value
    }

    /// The current value; the caller adds the acquire fence.
    pub fn load_acquire(&self) -> (r: i64)
        ensures
            r == self.shared.amd_signal.value,
    {
        self.shared.amd_signal.value
    }

    /// The signal's value after an operation, everything else as it was.
    pub open spec fn with_value(self, v: i64) -> Signal {
        Signal {
            shared: SharedSignal {
                amd_signal: AmdSignal { value: v, ..self.shared.amd_signal },
                ..self.shared
            },
            ..self
        }
    }

    /// Whether a release-class operation must raise the backing event:
    /// exactly when someone is waiting.
    pub open spec fn spec_should_notify(self) -> bool {
        self.waiting > 0
    }

    pub fn store_relaxed(&mut self, value: i64)
        ensures
            *final(self) == old(self).with_value(value),
    {
        self.shared.amd_signal.value = value;
    }

    /// Stores a value with release semantics; returns whether the
    /// caller must raise the backing event.
    pub fn store_release(&mut self, value: i64) -> (notify: bool)
        ensures
            *final(self) == old(self).with_value(value),
            notify == old(self).spec_should_notify(),
    {
        self.shared.amd_signal.value = value;
        self.waiting > 0
    }

    pub fn exchange_relaxed(&mut self, value: i64) -> (r: i64)
        ensures
            *final(self) == old(self).with_value(value),
            r == old(self).shared.amd_signal.value,
    {
        let r = self.shared.amd_signal.value;
        self.shared.amd_signal.value = value;
        r
    }

    pub fn exchange_acquire(&mut self, value: i64) -> (r: i64)
        ensures
            *final(self) == old(self).with_value(value),
            r == old(self).shared.amd_signal.value,
    {
        self.exchange_relaxed(value)
    }

    /// Exchange with release semantics; the second result says whether
    /// to raise the backing event.
    pub fn exchange_release(&mut self, value: i64) -> (r: (i64, bool))
        ensures
            *final(self) == old(self).with_value(value),
            r.0 == old(self).shared.amd_signal.value,
            r.1 == old(self).spec_should_notify(),
    {
        let prev = self.shared.amd_signal.value;
        self.shared.amd_signal.value = value;
        (prev, self.waiting > 0)
    }

    /// The value after a compare-and-swap of `expected` to `value`.
    pub open spec fn spec_cas_value(self, expected: i64, value: i64) -> i64 {
        if self.shared.amd_signal.value == expected {
            value
        } else {
            self.shared.amd_signal.value
        }
    }

    /// Compare-and-swap; returns the previous value.
    pub fn cas_relaxed(&mut self, expected: i64, value: i64) -> (r: i64)
        ensures
            *final(self) == old(self).with_value(old(self).spec_cas_value(expected, value)),
            r == old(self).shared.amd_signal.value,
    {
        let prev = self.shared.amd_signal.value;
        if prev == expected {
            self.shared.amd_signal.value = value;
        } else {
            proof {
                assert(*self =~= old(self).with_value(prev));
            }
        }
        prev
    }

    pub fn cas_acquire(&mut self, expected: i64, value: i64) -> (r: i64)
        ensures
            *final(self) == old(self).with_value(old(self).spec_cas_value(expected, value)),
            r == old(self).shared.amd_signal.value,
    {
        self.cas_relaxed(expected, value)
    }

    /// Compare-and-swap with release semantics; the event is raised
    /// only when the swap took effect.
    pub fn cas_release(&mut self, expected: i64, value: i64) -> (r: (i64, bool))
        ensures
            *final(self) == old(self).with_value(old(self).spec_cas_value(expected, value)),
            r.0 == old(self).shared.amd_signal.value,
            r.1 == (old(self).shared.amd_signal.value == expected
                && old(self).spec_should_notify()),
    {
        let prev = self.cas_relaxed(expected, value);
        (prev, prev == expected && self.waiting > 0)
    }

    pub fn cas_acq_rel(&mut self, expected: i64, value: i64) -> (r: (i64, bool))
        ensures
            *final(self) == old(self).with_value(old(self).spec_cas_value(expected, value)),
            r.0 == old(self).shared.amd_signal.value,
            r.1 == (old(self).shared.amd_signal.value == expected
                && old(self).spec_should_notify()),
    {
        self.cas_release(expected, value)
    }

    pub fn add_relaxed(&mut self, value: i64)
        ensures
            *final(self) == old(self).with_value(
                vstd::wrapping::i64_specs::wrapping_add(old(self).shared.amd_signal.value, value),
            ),
    {
        self.shared.amd_signal.value = self.shared.amd_signal.value.wrapping_add(value);
    }

    pub fn add_acquire(&mut self, value: i64)
        ensures
            *final(self) == old(self).with_value(
                vstd::wrapping::i64_specs::wrapping_add(old(self).shared.amd_signal.value, value),
            ),
    {
        self.add_relaxed(value);
    }

    pub fn add_release(&mut self, value: i64) -> (notify: bool)
        ensures
            *final(self) == old(self).with_value(
                vstd::wrapping::i64_specs::wrapping_add(old(self).shared.amd_signal.value, value),
            ),
            notify == old(self).spec_should_notify(),
    {
        self.add_relaxed(value);
        self.waiting > 0
    }

    pub fn sub_relaxed(&mut self, value: i64)
        ensures
            *final(self) == old(self).with_value(
                vstd::wrapping::i64_specs::wrapping_sub(old(self).shared.amd_signal.value, value),
            ),
    {
        self.shared.amd_signal.value = self.shared.amd_signal.value.wrapping_sub(value);
    }

    pub fn sub_acquire(&mut self, value: i64)
        ensures
            *final(self) == old(self).with_value(
                vstd::wrapping::i64_specs::wrapping_sub(old(self).shared.amd_signal.value, value),
            ),
    {
        self.sub_relaxed(value);
    }

    pub fn sub_release(&mut self, value: i64) -> (notify: bool)
        ensures
            *final(self) == old(self).with_value(
                vstd::wrapping::i64_specs::wrapping_sub(old(self).shared.amd_signal.value, value),
            ),
            notify == old(self).spec_should_notify(),
    {
        self.sub_relaxed(value);
        self.waiting > 0
    }

    pub fn and_relaxed(&mut self, value: i64)
        ensures
            *final(self) == old(self).with_value(old(self).shared.amd_signal.value & value),
    {
        self.shared.amd_signal.value = self.shared.amd_signal.value & value;
    }

    pub fn and_acquire(&mut self, value: i64)
        ensures
            *final(self) == old(self).with_value(old(self).shared.amd_signal.value & value),
    {
        self.and_relaxed(value);
    }

    pub fn and_release(&mut self, value: i64) -> (notify: bool)
        ensures
            *final(self) == old(self).with_value(old(self).shared.amd_signal.value & value),
            notify == old(self).spec_should_notify(),
    {
        self.and_relaxed(value);
        self.waiting > 0
    }

    pub fn or_relaxed(&mut self, value: i64)
        ensures
            *final(self) == old(self).with_value(old(self).shared.amd_signal.value | value),
    {
        self.shared.amd_signal.value = self.shared.amd_signal.value | value;
    }

    pub fn or_acquire(&mut self, value: i64)
        ensures
            *final(self) == old(self).with_value(old(self).shared.amd_signal.value | value),
    {
        self.or_relaxed(value);
    }

    pub fn or_release(&mut self, value: i64) -> (notify: bool)
        ensures
            *final(self) == old(self).with_value(old(self).shared.amd_signal.value | value),
            notify == old(self).spec_should_notify(),
    {
        self.or_relaxed(value);
        self.waiting > 0
    }

    pub fn xor_relaxed(&mut self, value: i64)
        ensures
            *final(self) == old(self).with_value(old(self).shared.amd_signal.value ^ value),
    {
        self.shared.amd_signal.value = self.shared.amd_signal.value ^ value;
    }

    pub fn xor_acquire(&mut self, value: i64)
        ensures
            *final(self) == old(self).with_value(old(self).shared.amd_signal.value ^ value),
    {
        self.xor_relaxed(value);
    }

    pub fn xor_release(&mut self, value: i64) -> (notify: bool)
        ensures
            *final(self) == old(self).with_value(old(self).shared.amd_signal.value ^ value),
            notify == old(self).spec_should_notify(),
    {
        self.xor_relaxed(value);
        self.waiting > 0
    }

    pub fn set_async_copy_agent(&mut self, agent_handle: u64)
        ensures
            *final(self) == (Signal {
                async_copy_agent: agent_handle,
                shared: SharedSignal { sdma_start_ts: 0, sdma_end_ts: 0, ..old(self).shared },
                ..*old(self)
            }),
    {
        self.async_copy_agent = agent_handle;
        self.shared.sdma_start_ts = 0;
        self.shared.sdma_end_ts = 0;
    }

    pub fn get_async_copy_agent(&self) -> (r: u64)
        ensures
            r == self.async_copy_agent,
    {
        self.async_copy_agent
    }

    /// A waiter announces itself before its first load.
    pub fn enter_wait(&mut self)
        requires
            old(self).waiting < u32::MAX,
        ensures
            *final(self) == (Signal { waiting: (old(self).waiting + 1) as u32, ..*old(self) }),
    {
        self.waiting = self.waiting + 1;
    }

    /// A waiter leaves on every exit path.
    pub fn exit_wait(&mut self)
        requires
            old(self).waiting >= 1,
        ensures
            *final(self) == (Signal { waiting: (old(self).waiting - 1) as u32, ..*old(self) }),
    {
        self.waiting = self.waiting - 1;
    }
}

/// A value stored with release semantics is the value a following
/// acquire load observes: the store-then-load round trip returns the
/// stored value.  The cross-thread half of the guarantee rests on the
/// fence and the conditional event wake that the callers of
/// `store_release` and `load_acquire` place around these transitions.
pub proof fn lemma_store_release_load_acquire(s: Signal, v: i64)
    ensures
        s.with_value(v).shared.amd_signal.value == v,
{
}

/// What a waiter does next after one observation of the value.
#[derive(Debug, Clone, Copy, PartialEq, Eq, Structural)]
pub enum WaitAction {
    /// The condition holds; return this value.
    Satisfied(i64),
    /// The timeout expired; return the last observed value.
    TimedOut(i64),
    /// Sleep on the backing event for at most this many milliseconds.
    SleepOnEvent(u32),
    /// Pause with the monitored-wait instruction for this cycle budget.
    SpinMwaitx(u32),
    /// Plain spin hint.
    SpinHint,
}

/// Milliseconds left of `remaining_clocks` ticks at `frequency` ticks
/// per second, saturated to `u32::MAX`.
pub open spec fn spec_wait_ms(remaining_clocks: int, frequency: int) -> int {
    let ms = (remaining_clocks * 1000) / frequency;
    if ms > u32::MAX as int {
        u32::MAX as int
    } else {
        ms
    }
}

/// One decision of the signal wait loop.
///
/// In order: a satisfied condition returns the value; an expired
/// timeout (never for the unbounded sentinel `u64::MAX`) returns the
/// last value; a blocked waiter past its spin budget sleeps on the
/// backing event for the remaining milliseconds (capped, or unbounded
/// for the sentinel); otherwise the waiter spins — with the monitored
/// wait and a 1000-cycle budget when active, 60000 when blocked, or a
/// plain spin hint where monitored wait is unavailable.
pub fn wait_step(
    observed: i64,
    condition: HsaSignalCondition,
    compare_value: i64,
    elapsed_clocks: u64,
    timeout_clocks: u64,
    spin_budget_clocks: u64,
    wait_hint: HsaWaitState,
    use_mwaitx: bool,
    frequency: u64,
) -> (r: WaitAction)
    requires
        frequency >= 1,
    ensures
        spec_check_condition(observed, condition, compare_value) ==> r == WaitAction::Satisfied(
            observed,
        ),
        !spec_check_condition(observed, condition, compare_value) && timeout_clocks != u64::MAX
            && elapsed_clocks >= timeout_clocks ==> r == WaitAction::TimedOut(observed),
        !spec_check_condition(observed, condition, compare_value) && (timeout_clocks == u64::MAX
            || elapsed_clocks < timeout_clocks) && wait_hint == HsaWaitState::Blocked
            && elapsed_clocks >= spin_budget_clocks ==> r == WaitAction::SleepOnEvent(
            if timeout_clocks == u64::MAX {
                u32::MAX
            } else {
                spec_wait_ms(timeout_clocks - elapsed_clocks, frequency as int) as u32
            },
        ),
        !spec_check_condition(observed, condition, compare_value) && (timeout_clocks == u64::MAX
            || elapsed_clocks < timeout_clocks) && (wait_hint == HsaWaitState::Active
            || elapsed_clocks < spin_budget_clocks) ==> r == if use_mwaitx {
            WaitAction::SpinMwaitx(
                if wait_hint == HsaWaitState::Active {
                    1000
                } else {
                    60000
                },
            )
        } else {
            WaitAction::SpinHint
        },
{
    if check_condition(observed, condition, compare_value) {
        return WaitAction::Satisfied(observed);
    }
    if timeout_clocks != u64::MAX && elapsed_clocks >= timeout_clocks {
        return WaitAction::TimedOut(observed);
    }
    if wait_hint == HsaWaitState::Blocked && elapsed_clocks >= spin_budget_clocks {
        let wait_ms: u32 = if timeout_clocks == u64::MAX {
            u32::MAX
        } else {
            let remaining: u64 = timeout_clocks - elapsed_clocks;
            let ms: u128 = ((remaining as u128) * 1000) / (frequency as u128);
            if ms > u32::MAX as u128 {
                u32::MAX
            } else {
                ms as u32
            }
        };
        return WaitAction::SleepOnEvent(wait_ms);
    }
    if use_mwaitx {
        WaitAction::SpinMwaitx(
            if wait_hint == HsaWaitState::Active {
                1000
            } else {
                60000
            },
        )
    } else {
        WaitAction::SpinHint
    }
}

/// The first signal in a group whose condition holds, if any.
pub fn poll_signals(
    values: &Vec<i64>,
    conditions: &Vec<HsaSignalCondition>,
    compares: &Vec<i64>,
) -> (r: Option<usize>)
    requires
        values@.len() == conditions@.len(),
        values@.len() == compares@.len(),
    ensures
        match r {
            Some(i) => {
                &&& 0 <= i < values@.len()
                &&& spec_check_condition(values@[i as int], conditions@[i as int], compares@[i as int])
                &&& forall|j: int|
                    0 <= j < i ==> !spec_check_condition(
                        #[trigger] values@[j],
                        conditions@[j],
                        compares@[j],
                    )
            },
            None => forall|j: int|
                0 <= j < values@.len() ==> !spec_check_condition(
                    #[trigger] values@[j],
                    conditions@[j],
                    compares@[j],
                ),
        },
{
    let n = values.len();
    let mut i: usize = 0;
    while i < n
        invariant
            n == values@.len(),
            values@.len() == conditions@.len(),
            values@.len() == compares@.len(),
            0 <= i <= n,
            forall|j: int|
                0 <= j < i ==> !spec_check_condition(
                    #[trigger] values@[j],
                    conditions@[j],
                    compares@[j],
                ),
        decreases n - i,
    {
        if check_condition(values[i], conditions[i], compares[i]) {
            return Some(i);
        }
        i = i + 1;
    }
    None
}

/// Whether `x` occurs in `s`.
pub open spec fn appears_in(x: u32, s: Seq<u32>) -> bool {
    exists|k: int| 0 <= k < s.len() && s[k] == x
}

/// Insertion keeps every occurrence.
proof fn lemma_appears_insert(s: Seq<u32>, q: int, v: u32, x: u32)
    requires
        0 <= q <= s.len(),
        appears_in(x, s),
    ensures
        appears_in(x, s.insert(q, v)),
{
    let k = choose|k: int| 0 <= k < s.len() && s[k] == x;
    if k < q {
        assert(s.insert(q, v)[k] == x);
    } else {
        assert(s.insert(q, v)[k + 1] == x);
    }
}

/// Sorts the backing event ids of a wait group and drops duplicates:
/// the result is strictly increasing and holds exactly the input's ids.
pub fn dedup_event_ids(ids: &Vec<u32>) -> (r: Vec<u32>)
    ensures
        forall|i: int, j: int| 0 <= i < j < r@.len() ==> r@[i] < r@[j],
        forall|i: int| 0 <= i < r@.len() ==> appears_in(#[trigger] r@[i], ids@),
        forall|j: int| 0 <= j < ids@.len() ==> appears_in(#[trigger] ids@[j], r@),
{
    let mut r: Vec<u32> = Vec::new();
    let n = ids.len();
    let mut p: usize = 0;
    while p < n
        invariant
            n == ids@.len(),
            0 <= p <= n,
            forall|i: int, j: int| 0 <= i < j < r@.len() ==> r@[i] < r@[j],
            forall|i: int| 0 <= i < r@.len() ==> appears_in(#[trigger] r@[i], ids@),
            forall|j: int| 0 <= j < p ==> appears_in(#[trigger] ids@[j], r@),
        decreases n - p,
    {
        let v = ids[p];
        proof {
            assert(ids@[p as int] == v);
            assert(appears_in(v, ids@));
        }
        let m = r.len();
        let mut q: usize = 0;
        while q < m && r[q] < v
            invariant
                m == r@.len(),
                0 <= q <= m,
                forall|k: int| 0 <= k < q ==> r@[k] < v,
            decreases m - q,
        {
            q = q + 1;
        }
        if q == m || r[q] != v {
            let ghost pre = r@;
            r.insert(q, v);
            proof {
                assert(r@ == pre.insert(q as int, v));
                assert forall|i: int, j: int| 0 <= i < j < r@.len() implies r@[i] < r@[j] by {
                    if j < q {
                        assert(r@[i] == pre[i] && r@[j] == pre[j]);
                    } else if i < q && j == q {
                        assert(r@[i] == pre[i]);
                    } else if i < q && j > q {
                        assert(r@[i] == pre[i] && r@[j] == pre[j - 1]);
                        assert(q < pre.len() && pre[q as int] >= v);
                    } else if i == q && j > q {
                        assert(r@[j] == pre[j - 1]);
                        assert(q < pre.len() && pre[q as int] >= v && pre[q as int] != v);
                    } else {
                        assert(r@[i] == pre[i - 1] && r@[j] == pre[j - 1]);
                    }
                }
                assert forall|i: int| 0 <= i < r@.len() implies appears_in(
                    #[trigger] r@[i],
                    ids@,
                ) by {
                    if i < q {
                        assert(r@[i] == pre[i]);
                    } else if i == q {
                        assert(r@[i] == v);
                    } else {
                        assert(r@[i] == pre[i - 1]);
                    }
                }
                assert forall|j: int| 0 <= j < p + 1 implies appears_in(
                    #[trigger] ids@[j],
                    r@,
                ) by {
                    if j == p as int {
                        assert(r@[q as int] == v);
                    } else {
                        lemma_appears_insert(pre, q as int, v, ids@[j]);
                    }
                }
            }
        } else {
            proof {
                assert(r@[q as int] == v);
                assert(appears_in(v, r@));
            }
        }
        p = p + 1;
    }
    r
}

/// A growable pool of 128-byte signal slots.
///
/// The free list holds the GPU address of each free slot.  Blocks are
/// allocated by the caller in unified memory; the first block carries
/// 32 slots and each further block doubles, up to 1024 slots.  Blocks
/// never shrink while the pool lives.
#[derive(Debug, Clone, PartialEq, Eq)]
pub struct SignalPool {
    /// GPU addresses of the free slots.
    pub free_list: Vec<u64>,
    /// (base address, slot count) of every block ever added.
    pub block_list: Vec<(u64, usize)>,
    /// Number of slots the next block will carry.
    pub next_block_signals: usize,
}

impl SignalPool {
    /// Slots in the first block: one 4 KiB page.
    pub const INITIAL_BLOCK_SIGNALS: usize = 32;

    /// Largest block: a 128 KiB allocation.
    pub const MAX_BLOCK_SIGNALS: usize = 1024;

    pub open spec fn wf(&self) -> bool {
        32 <= self.next_block_signals <= 1024
    }

    #[must_use]
    pub fn new() -> (r: Self)
        ensures
            r.free_list@.len() == 0,
            r.block_list@.len() == 0,
            r.next_block_signals == 32,
            r.wf(),
    {
        SignalPool { free_list: Vec::new(), block_list: Vec::new(), next_block_signals: 32 }
    }

    /// Whether a new block must be added before a slot can be handed out.
    pub fn needs_grow(&self) -> (r: bool)
        ensures
            r == (self.free_list@.len() == 0),
    {
        self.free_list.len() == 0
    }

    /// Byte size of the next block to allocate.
    pub fn next_block_bytes(&self) -> (r: usize)
        requires
            self.wf(),
        ensures
            r == self.next_block_signals * 128,
    {
        self.next_block_signals * 128
    }

    /// Registers a freshly allocated block at `base_va`.
    ///
    /// Every slot address in the block — `base_va + i * 128` for each
    /// slot `i` — joins the free list, and the next block size doubles,
    /// capped at 1024 slots.
    pub fn add_block(&mut self, base_va: u64)
        requires
            old(self).wf(),
            base_va + old(self).next_block_signals * 128 <= u64::MAX,
        ensures
            final(self).wf(),
            final(self).free_list@.len() == old(self).free_list@.len()
                + old(self).next_block_signals,
            forall|i: int|
                0 <= i < old(self).free_list@.len() ==> final(self).free_list@[i] == old(
                    self,
                ).free_list@[i],
            forall|i: int|
                0 <= i < old(self).next_block_signals ==> #[trigger] final(self).free_list@[old(
                    self,
                ).free_list@.len() + i] == base_va + i * 128,
            final(self).block_list@ == old(self).block_list@.push(
                (base_va, old(self).next_block_signals),
            ),
            final(self).next_block_signals == if 2 * old(self).next_block_signals <= 1024 {
                2 * old(self).next_block_signals
            } else {
                1024int
            },
    {
        let num = self.next_block_signals;
        let ghost pre = self.free_list@;
        let mut i: usize = 0;
        while i < num
            invariant
                num <= 1024,
                base_va + num * 128 <= u64::MAX,
                0 <= i <= num,
                self.free_list@.len() == pre.len() + i,
                self.block_list@ == old(self).block_list@,
                self.next_block_signals == num,
                forall|k: int| 0 <= k < pre.len() ==> self.free_list@[k] == pre[k],
                forall|k: int|
                    0 <= k < i ==> #[trigger] self.free_list@[pre.len() + k] == base_va + k * 128,
            decreases num - i,
        {
            proof {
                assert((i as int) * 128 <= 1024 * 128) by (nonlinear_arith)
                    requires
                        0 <= i <= 1024,
                ;
                assert((i as int) * 128 >= 0) by (nonlinear_arith)
                    requires
                        i >= 0,
                ;
                assert((i as int) * 128 < (num as int) * 128) by (nonlinear_arith)
                    requires
                        0 <= i < num,
                ;
            }
            let slot_va: u64 = base_va + (i as u64) * 128;
            self.free_list.push(slot_va);
            i = i + 1;
        }
        self.block_list.push((base_va, num));
        let doubled = num * 2;
        self.next_block_signals = if doubled <= 1024 {
            doubled
        } else {
            1024
        };
    }

    /// Hands out a free slot address, most recently freed first.
    pub fn take_slot(&mut self) -> (r: Option<u64>)
        ensures
            final(self).block_list@ == old(self).block_list@,
            final(self).next_block_signals == old(self).next_block_signals,
            old(self).free_list@.len() == 0 ==> r is None && final(self).free_list@ == old(
                self,
            ).free_list@,
            old(self).free_list@.len() > 0 ==> {
                &&& r == Some(old(self).free_list@.last())
                &&& final(self).free_list@ == old(self).free_list@.drop_last()
            },
    {
        if self.free_list.len() == 0 {
            None
        } else {
            self.free_list.pop()
        }
    }

    /// Returns a slot to the pool.  The caller re-stamps the slot's
    /// kind word as invalid before handing it back.
    pub fn free(&mut self, gpu_va: u64)
        ensures
            final(self).free_list@ == old(self).free_list@.push(gpu_va),
            final(self).block_list@ == old(self).block_list@,
            final(self).next_block_signals == old(self).next_block_signals,
    {
        self.free_list.push(gpu_va);
    }
}

} // verus!
