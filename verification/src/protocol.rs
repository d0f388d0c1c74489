//! The rules of the lock on plain values: the states of its flag, the steps a
//! context takes to win it, and what each access to the flag is made with.
use std::sync::atomic::Ordering;
use vstd::prelude::*;

verus! {

/// The state of a lock's flag.
#[derive(Clone, Copy, Debug, PartialEq, Eq, Structural)]
pub enum LockState {
    /// No guard exists; the protected value rests in the lock.
    Unlocked,
    /// One guard exists and has the protected value.
    Locked,
}

/// Where a context stands with respect to one lock.
#[derive(Clone, Copy, Debug, PartialEq, Eq, Structural)]
pub enum Phase {
    /// Does not want the lock.
    Idle,
    /// About to try the exchange of the flag from unlocked to locked.
    Exchange,
    /// Lost an exchange; reads the flag until it shows unlocked.
    Probe,
    /// Won the exchange; about to take the protected value out of the lock.
    Claimed,
    /// Has the protected value: its guard is alive.
    Holding,
    /// Put the protected value back; about to clear the flag.
    Returned,
}

impl LockState {
    /// The bit that stands for this state in the flag.
    pub open spec fn bit(self) -> bool {
        self == LockState::Locked
    }

    /// The state that a bit of the flag stands for.
    pub open spec fn of_bit(bit: bool) -> LockState {
        if bit {
            LockState::Locked
        } else {
            LockState::Unlocked
        }
    }

    /// The bit of the flag for this state: clear when unlocked, set when locked.
    pub fn to_bit(self) -> (bit: bool)
        ensures
            bit == self.bit(),
        opens_invariants none
        no_unwind
    {
        match self {
            LockState::Unlocked => false,
            LockState::Locked => true,
        }
    }

    /// Reads a bit of the flag as a state.
    pub fn from_bit(bit: bool) -> (state: LockState)
        ensures
            state == LockState::of_bit(bit),
            state.bit() == bit,
    {
        if bit {
            LockState::Locked
        } else {
            LockState::Unlocked
        }
    }
}

/// The flag of a new lock: unlocked.
pub open spec fn fresh_flag() -> LockState {
    LockState::Unlocked
}

/// The flag after a release: unlocked.
pub open spec fn released_flag() -> LockState {
    LockState::Unlocked
}

/// The state that the exchange of an acquiring context must find in the flag
/// to set it: unlocked.
pub open spec fn exchange_expects() -> LockState {
    LockState::Unlocked
}

/// What an exchange from unlocked to locked reports when the flag was in
/// `before`: the bit it found, as `Ok` if it set the flag and as `Err` if it
/// left the flag alone.
pub open spec fn exchange_report(before: LockState) -> Result<bool, bool> {
    match before {
        LockState::Unlocked => Ok(false),
        LockState::Locked => Err(true),
    }
}

/// The flag after an exchange from unlocked to locked: locked, whoever won.
pub open spec fn exchange_effect(before: LockState) -> LockState {
    LockState::Locked
}

/// The phase that follows an exchange with the given report.
pub open spec fn phase_after_exchange(report: Result<bool, bool>) -> Phase {
    if report is Ok {
        Phase::Claimed
    } else {
        Phase::Probe
    }
}

/// The phase that follows a read of the flag that showed `seen`.
pub open spec fn phase_after_probe(seen: LockState) -> Phase {
    match seen {
        LockState::Unlocked => Phase::Exchange,
        LockState::Locked => Phase::Probe,
    }
}

/// Decides what a context does after its exchange: it has the lock if the
/// exchange set the flag, and falls back to reading the flag if not.
pub fn after_exchange(report: Result<bool, bool>) -> (next: Phase)
    ensures
        next == phase_after_exchange(report),
{
    match report {
        Ok(_) => Phase::Claimed,
        Err(_) => Phase::Probe,
    }
}

/// Decides what a context does after a read of the flag: it tries the
/// exchange again once the flag shows unlocked, and keeps reading until then.
pub fn after_probe(seen: LockState) -> (next: Phase)
    ensures
        next == phase_after_probe(seen),
{
    match seen {
        LockState::Unlocked => Phase::Exchange,
        LockState::Locked => Phase::Probe,
    }
}

/// The bit that the flag of a new lock is made with.
pub fn fresh_bit() -> (bit: bool)
    ensures
        bit == fresh_flag().bit(),
        !bit,
{
    LockState::Unlocked.to_bit()
}

/// The bits of the exchange by which a context takes the lock: first the bit
/// that it must find in the flag, then the bit that it writes.
pub fn exchange_bits() -> (bits: (bool, bool))
    ensures
        bits.0 == exchange_expects().bit(),
        bits.1 == exchange_effect(exchange_expects()).bit(),
        bits == (false, true),
{
    (LockState::Unlocked.to_bit(), LockState::Locked.to_bit())
}

/// The ordering of an exchange that is won: acquire, so that all that the
/// winner does afterwards comes after the exchange.
pub fn won_order() -> (order: Ordering)
    ensures
        order is Acquire,
{
    Ordering::Acquire
}

/// The ordering of an exchange that is lost: relaxed.
pub fn lost_order() -> (order: Ordering)
    ensures
        order is Relaxed,
{
    Ordering::Relaxed
}

/// The ordering of a read of the flag while waiting: relaxed. The read only
/// tells when to try the exchange again.
pub fn probe_order() -> (order: Ordering)
    ensures
        order is Relaxed,
{
    Ordering::Relaxed
}

/// The bit that a release writes into the flag.
pub fn release_bit() -> (bit: bool)
    ensures
        bit == released_flag().bit(),
        !bit,
    opens_invariants none
    no_unwind
{
    LockState::Unlocked.to_bit()
}

/// The ordering of the store that releases the lock: release, so that all
/// that the holder did comes before the store.
pub fn release_order() -> (order: Ordering)
    ensures
        order is Release,
    opens_invariants none
    no_unwind
{
    Ordering::Release
}

} // verus!
