use spinlock::protocol::after_exchange;
use spinlock::protocol::after_probe;
use spinlock::protocol::exchange_bits;
use spinlock::protocol::fresh_bit;
use spinlock::protocol::lost_order;
use spinlock::protocol::probe_order;
use spinlock::protocol::release_bit;
use spinlock::protocol::release_order;
use spinlock::protocol::won_order;
use spinlock::protocol::LockState;
use spinlock::protocol::Phase;
use std::sync::atomic::Ordering;

#[test]
fn new_flag_is_made_unlocked() {
    assert_eq!(fresh_bit(), false);
    assert_eq!(LockState::from_bit(fresh_bit()), LockState::Unlocked);
}

#[test]
fn exchange_goes_from_unlocked_to_locked() {
    assert_eq!(exchange_bits(), (false, true));
    let (expected, written) = exchange_bits();
    assert_eq!(LockState::from_bit(expected), LockState::Unlocked);
    assert_eq!(LockState::from_bit(written), LockState::Locked);
}

#[test]
fn won_exchange_is_ordered_as_acquire() {
    assert_eq!(won_order(), Ordering::Acquire);
}

#[test]
fn lost_exchange_is_relaxed() {
    assert_eq!(lost_order(), Ordering::Relaxed);
}

#[test]
fn waiting_read_is_relaxed() {
    assert_eq!(probe_order(), Ordering::Relaxed);
}

#[test]
fn release_writes_the_unlocked_bit() {
    assert_eq!(release_bit(), false);
    assert_eq!(LockState::from_bit(release_bit()), LockState::Unlocked);
}

#[test]
fn release_is_ordered_as_release() {
    assert_eq!(release_order(), Ordering::Release);
}

#[test]
fn unlocked_is_the_clear_bit() {
    assert_eq!(LockState::Unlocked.to_bit(), false);
    assert_eq!(LockState::from_bit(false), LockState::Unlocked);
}

#[test]
fn locked_is_the_set_bit() {
    assert_eq!(LockState::Locked.to_bit(), true);
    assert_eq!(LockState::from_bit(true), LockState::Locked);
}

#[test]
fn bits_and_states_round_trip() {
    for state in [LockState::Unlocked, LockState::Locked] {
        assert_eq!(LockState::from_bit(state.to_bit()), state);
    }
    for bit in [false, true] {
        assert_eq!(LockState::from_bit(bit).to_bit(), bit);
    }
}

#[test]
fn won_exchange_claims_the_lock() {
    assert_eq!(after_exchange(Ok(false)), Phase::Claimed);
}

#[test]
fn lost_exchange_falls_back_to_probing() {
    assert_eq!(after_exchange(Err(true)), Phase::Probe);
}

#[test]
fn exchange_is_judged_by_its_side_alone() {
    assert_eq!(after_exchange(Ok(true)), Phase::Claimed);
    assert_eq!(after_exchange(Err(false)), Phase::Probe);
}

#[test]
fn probe_of_locked_flag_keeps_probing() {
    assert_eq!(after_probe(LockState::Locked), Phase::Probe);
}

#[test]
fn probe_of_unlocked_flag_retries_the_exchange() {
    assert_eq!(after_probe(LockState::Unlocked), Phase::Exchange);
}

#[test]
fn contended_acquire_walks_exchange_probe_exchange() {
    // The flag is locked at the first exchange and at two reads, then free.
    let mut phase = Phase::Exchange;
    let mut trail = vec![phase];
    phase = after_exchange(Err(true));
    trail.push(phase);
    phase = after_probe(LockState::Locked);
    trail.push(phase);
    phase = after_probe(LockState::Locked);
    trail.push(phase);
    phase = after_probe(LockState::Unlocked);
    trail.push(phase);
    phase = after_exchange(Ok(false));
    trail.push(phase);
    assert_eq!(
        trail,
        vec![
            Phase::Exchange,
            Phase::Probe,
            Phase::Probe,
            Phase::Probe,
            Phase::Exchange,
            Phase::Claimed,
        ]
    );
}
