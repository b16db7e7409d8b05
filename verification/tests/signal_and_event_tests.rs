use kfd_thunk::error::HsaError;
use kfd_thunk::events::{build_create_event_args, Event, EventManager, EINVAL_ERRNO};
use kfd_thunk::signal::{
    check_condition, dedup_event_ids, poll_signals, wait_step, AmdSignalKind, HsaSignalCondition,
    HsaWaitState, Signal, SignalPool, WaitAction, AMD_SIGNAL_BYTES, SIGNAL_MAGIC,
    SIGNAL_SLOT_BYTES, SIGNAL_VALUE_OFFSET,
};

fn signal_event(id: u32, auto_reset: bool, signaled: bool) -> Event {
    Event { event_id: id, slot_index: id, hw_data2: 0x9000 + (id as u64) * 8, auto_reset, signaled }
}

#[test]
fn signal_layout_constants_match_the_packed_block() {
    // The block is 128 bytes, its GPU-visible half 64, and the value
    // word sits 8 bytes in; the pool numbers slots 128 bytes apart.
    assert_eq!(SIGNAL_SLOT_BYTES, 128);
    assert_eq!(AMD_SIGNAL_BYTES, 64);
    assert_eq!(SIGNAL_VALUE_OFFSET, 8);
}

#[test]
fn signal_block_is_stamped_and_value_sits_eight_bytes_in() {
    let s = Signal::new(5, AmdSignalKind::User, 0, 0x4000_0000, 42, 0xABCD);
    assert_eq!(s.shared.id, SIGNAL_MAGIC);
    assert_eq!(s.shared.amd_signal.kind, 1);
    assert_eq!(s.shared.amd_signal.value, 5);
    assert_eq!(s.shared.amd_signal.event_id, 42);
    assert_eq!(s.shared.amd_signal.event_mailbox_ptr, 0xABCD);
    assert_eq!(s.value_gpu_address() - s.signal_handle_gpu_va(), 8);
}

#[test]
fn doorbell_kinds_use_negative_kind_words() {
    let d = Signal::new(0, AmdSignalKind::Doorbell, 0x77, 0, 1, 2);
    assert_eq!(d.shared.amd_signal.kind, -1);
    assert_eq!(d.shared.amd_signal.queue_ptr, 0x77);
    let l = Signal::new(0, AmdSignalKind::LegacyDoorbell, 0, 0, 1, 2);
    assert_eq!(l.shared.amd_signal.kind, -2);
}

#[test]
fn store_release_then_load_acquire_round_trips() {
    let mut s = Signal::new(1, AmdSignalKind::User, 0, 0, 1, 2);
    let notify = s.store_release(0);
    assert!(!notify, "nobody is waiting yet");
    assert_eq!(s.load_acquire(), 0);

    s.enter_wait();
    let notify = s.store_release(9);
    assert!(notify, "a waiter must be woken");
    s.exit_wait();
    assert_eq!(s.load_acquire(), 9);
}

#[test]
fn atomic_transitions_compute_the_documented_values() {
    let mut s = Signal::new(10, AmdSignalKind::User, 0, 0, 1, 2);
    assert_eq!(s.exchange_relaxed(20), 10);
    assert_eq!(s.cas_relaxed(99, 1), 20, "a mismatched expectation leaves the value");
    assert_eq!(s.load_relaxed(), 20);
    assert_eq!(s.cas_relaxed(20, 1), 20);
    assert_eq!(s.load_relaxed(), 1);
    s.add_relaxed(5);
    assert_eq!(s.load_relaxed(), 6);
    s.sub_relaxed(2);
    assert_eq!(s.load_relaxed(), 4);
    s.and_relaxed(6);
    assert_eq!(s.load_relaxed(), 4);
    s.or_relaxed(3);
    assert_eq!(s.load_relaxed(), 7);
    s.xor_relaxed(1);
    assert_eq!(s.load_relaxed(), 6);
}

#[test]
fn wrapping_addition_does_not_panic() {
    let mut s = Signal::new(i64::MAX, AmdSignalKind::User, 0, 0, 1, 2);
    s.add_relaxed(1);
    assert_eq!(s.load_relaxed(), i64::MIN);
}

#[test]
fn check_condition_covers_all_four_comparisons() {
    assert!(check_condition(3, HsaSignalCondition::Eq, 3));
    assert!(!check_condition(3, HsaSignalCondition::Eq, 4));
    assert!(check_condition(3, HsaSignalCondition::Ne, 4));
    assert!(check_condition(3, HsaSignalCondition::Lt, 4));
    assert!(!check_condition(4, HsaSignalCondition::Lt, 4));
    assert!(check_condition(4, HsaSignalCondition::Gte, 4));
}

#[test]
fn wait_step_decides_satisfied_timeout_sleep_and_spin() {
    // Satisfied immediately.
    assert_eq!(
        wait_step(0, HsaSignalCondition::Eq, 0, 0, 1000, 10, HsaWaitState::Blocked, true, 1000),
        WaitAction::Satisfied(0)
    );
    // Timed out: the last observed value comes back.
    assert_eq!(
        wait_step(5, HsaSignalCondition::Eq, 0, 2000, 1000, 10, HsaWaitState::Blocked, true, 1000),
        WaitAction::TimedOut(5)
    );
    // Past the spin budget, a blocked waiter sleeps for the remaining
    // milliseconds: 500 ticks left at 1000 ticks per second is 500 ms.
    assert_eq!(
        wait_step(5, HsaSignalCondition::Eq, 0, 500, 1000, 10, HsaWaitState::Blocked, true, 1000),
        WaitAction::SleepOnEvent(500)
    );
    // An unbounded wait sleeps with the unbounded sentinel.
    assert_eq!(
        wait_step(5, HsaSignalCondition::Eq, 0, 500, u64::MAX, 10, HsaWaitState::Blocked, true, 1000),
        WaitAction::SleepOnEvent(u32::MAX)
    );
    // Inside the spin budget the waiter pauses: 60000 cycles blocked,
    // 1000 active, plain hint without the monitored wait.
    assert_eq!(
        wait_step(5, HsaSignalCondition::Eq, 0, 5, 1000, 10, HsaWaitState::Blocked, true, 1000),
        WaitAction::SpinMwaitx(60000)
    );
    assert_eq!(
        wait_step(5, HsaSignalCondition::Eq, 0, 500, 1000, 10, HsaWaitState::Active, true, 1000),
        WaitAction::SpinMwaitx(1000)
    );
    assert_eq!(
        wait_step(5, HsaSignalCondition::Eq, 0, 5, 1000, 10, HsaWaitState::Blocked, false, 1000),
        WaitAction::SpinHint
    );
}

#[test]
fn poll_signals_returns_the_first_satisfied_index() {
    let values = vec![0i64, 7, 7];
    let conditions = vec![
        HsaSignalCondition::Ne,
        HsaSignalCondition::Eq,
        HsaSignalCondition::Eq,
    ];
    let compares = vec![0i64, 7, 7];
    assert_eq!(poll_signals(&values, &conditions, &compares), Some(1));
    let nothing = poll_signals(&vec![1i64], &vec![HsaSignalCondition::Eq], &vec![0i64]);
    assert_eq!(nothing, None);
}

#[test]
fn dedup_event_ids_sorts_and_drops_duplicates() {
    let ids = vec![9u32, 3, 9, 1, 3];
    let r = dedup_event_ids(&ids);
    assert_eq!(r, vec![1, 3, 9]);
}

#[test]
fn signal_pool_doubles_blocks_and_numbers_slots() {
    let mut pool = SignalPool::new();
    assert!(pool.needs_grow());
    assert_eq!(pool.next_block_bytes(), 32 * 128);
    pool.add_block(0x10_0000);
    assert_eq!(pool.next_block_bytes(), 64 * 128);
    // Slots are handed out most recently pushed first.
    let last = pool.take_slot().unwrap();
    assert_eq!(last, 0x10_0000 + 31 * 128);
    pool.free(last);
    assert_eq!(pool.take_slot().unwrap(), last);
    // Growth caps at 1024 slots per block.
    for i in 0..8 {
        pool.add_block(0x100_0000 + (i as u64) * 0x10_0000);
    }
    assert_eq!(pool.next_block_bytes(), 1024 * 128);
}

#[test]
fn event_timeout_scenario() {
    // A manual-reset, unsignaled event: the wait times out.
    let mut em = EventManager::new();
    em.register_event(signal_event(1, false, false));
    let r = em.wait_on_multiple_events(&vec![1u32], false, 500);
    assert_eq!(r, Err(HsaError::WaitTimeout));
}

#[test]
fn event_set_then_wait_scenario() {
    let mut em = EventManager::new();
    em.register_event(signal_event(1, false, false));
    em.set_event(1).unwrap();
    let r = em.wait_on_multiple_events(&vec![1u32], false, 1000).unwrap();
    assert_eq!(r, vec![0]);
}

#[test]
fn manual_reset_persistence_scenario() {
    let mut em = EventManager::new();
    em.register_event(signal_event(1, false, false));
    em.set_event(1).unwrap();
    assert_eq!(em.wait_on_multiple_events(&vec![1u32], false, 1000).unwrap(), vec![0]);
    // Still signaled across the repeated wait.
    assert_eq!(em.wait_on_multiple_events(&vec![1u32], false, 100).unwrap(), vec![0]);
    em.reset_event(1).unwrap();
    assert_eq!(
        em.wait_on_multiple_events(&vec![1u32], false, 500),
        Err(HsaError::WaitTimeout)
    );
}

#[test]
fn auto_reset_clears_on_the_wait_that_observes_it() {
    let mut em = EventManager::new();
    em.register_event(signal_event(2, true, false));
    em.set_event(2).unwrap();
    assert_eq!(em.wait_on_multiple_events(&vec![2u32], false, 0).unwrap(), vec![0]);
    // The observing wait consumed the signal.
    assert_eq!(
        em.wait_on_multiple_events(&vec![2u32], false, 0),
        Err(HsaError::WaitTimeout)
    );
}

#[test]
fn zero_timeout_wait_on_signaled_event_returns_index_zero() {
    let mut em = EventManager::new();
    em.register_event(signal_event(3, false, true));
    assert_eq!(em.wait_on_multiple_events(&vec![3u32], false, 0).unwrap(), vec![0]);
}

#[test]
fn reset_is_idempotent_and_destroy_errors_the_second_time() {
    let mut em = EventManager::new();
    em.register_event(signal_event(4, false, true));
    em.reset_event(4).unwrap();
    let snapshot = em.clone();
    em.reset_event(4).unwrap();
    assert_eq!(em, snapshot, "a second reset changes nothing");

    assert_eq!(em.destroy_event(4), Ok(()));
    assert_eq!(em.destroy_event(4), Err(HsaError::Io(EINVAL_ERRNO)));
}

#[test]
fn wait_all_needs_every_event_signaled() {
    let mut em = EventManager::new();
    em.register_event(signal_event(1, false, true));
    em.register_event(signal_event(2, false, false));
    assert_eq!(
        em.wait_on_multiple_events(&vec![1u32, 2], true, 0),
        Err(HsaError::WaitTimeout)
    );
    em.set_event(2).unwrap();
    assert_eq!(em.wait_on_multiple_events(&vec![1u32, 2], true, 0).unwrap(), vec![0, 1]);
}

#[test]
fn create_event_args_carry_the_descriptor() {
    let args = build_create_event_args(0, 3, true, 0x8000);
    assert_eq!(args.event_type, 0);
    assert_eq!(args.node_id, 3);
    assert_eq!(args.auto_reset, 1);
    assert_eq!(args.event_page_offset, 0x8000);
}

#[test]
fn error_kinds_describe_themselves() {
    assert_eq!(HsaError::Io(22).describe(), "I/O error");
    assert_eq!(HsaError::Driver(String::from("queue fault")).describe(), "KFD driver error");
    assert_eq!(HsaError::WaitTimeout.describe(), "operation timed out");
    assert_eq!(HsaError::OutOfMemory.describe(), "out of GPU memory");
    assert_eq!(HsaError::InvalidNodeId(3).describe(), "invalid node ID");
    assert_eq!(HsaError::General(String::from("poisoned lock")).describe(), "general thunk error");
}
