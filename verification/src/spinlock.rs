//! The lock and its guard.
//!
//! The flag is an atomic bit and the protected value rests in a cell beside
//! it. A context that wins the flag moves the value out of the cell into its
//! guard, works on it there, and the guard moves it back before it clears the
//! flag. Only the winner of the flag touches the cell, so the value is never
//! in two hands.
use crate::protocol::after_exchange;
use crate::protocol::after_probe;
use crate::protocol::exchange_bits;
use crate::protocol::exchange_report;
use crate::protocol::fresh_bit;
use crate::protocol::lost_order;
use crate::protocol::phase_after_exchange;
use crate::protocol::phase_after_probe;
use crate::protocol::probe_order;
use crate::protocol::release_bit;
use crate::protocol::release_order;
use crate::protocol::won_order;
use crate::protocol::LockState;
use crate::protocol::Phase;
use std::cell::Cell;
use std::sync::atomic::AtomicBool;
use std::sync::atomic::Ordering;
use vstd::prelude::*;

verus! {

/// `std::cell::Cell`, as a value that the library carries and cannot look
/// into.
#[verifier::external_type_specification]
#[verifier::external_body]
#[verifier::reject_recursive_types(T)]
pub struct ExCell<T: ?Sized>(Cell<T>);

/// `Cell::new`: a cell around `value`. Nothing is claimed of the cell: what
/// it holds can change behind a shared reference.
pub assume_specification<T>[ Cell::<T>::new ](value: T) -> Cell<T>;

/// `std::hint::spin_loop`: tells the processor that the caller is busy
/// waiting. It returns nothing and changes nothing that the library can see.
pub assume_specification[ std::hint::spin_loop ]();

/// `Cell::replace`: puts `value` into the cell and hands out what was there.
/// Nothing is claimed of what comes out; the call does not unwind.
#[verifier::external_body]
fn cell_replace<T>(cell: &Cell<T>, value: T) -> T
    opens_invariants none
    no_unwind
{
    cell.replace(value)
}

/// `AtomicBool::compare_exchange`: writes `new` if the flag holds `current`.
/// The report carries the bit that was found: in `Ok`, then equal to
/// `current`, if `new` was written; in `Err`, then different from `current`,
/// if the flag was left alone. The call panics on a failure ordering of
/// `Release` or `AcqRel`, which `requires` leaves out.
#[verifier::external_body]
fn flag_compare_exchange(
    flag: &AtomicBool,
    current: bool,
    new: bool,
    success: Ordering,
    failure: Ordering,
) -> (report: Result<bool, bool>)
    requires
        !(failure is Release),
        !(failure is AcqRel),
    ensures
        match report {
            Ok(found) => found == current,
            Err(found) => found != current,
        },
{
    flag.compare_exchange(current, new, success, failure)
}

/// `AtomicBool::load`: the bit in the flag at some moment of the call. Other
/// contexts may write the flag at any time, so nothing is claimed of the bit.
/// The call panics on an ordering of `Release` or `AcqRel`, which `requires`
/// leaves out.
#[verifier::external_body]
fn flag_load(flag: &AtomicBool, order: Ordering) -> (bit: bool)
    requires
        !(order is Release),
        !(order is AcqRel),
{
    flag.load(order)
}

/// `AtomicBool::store`: writes `bit` into the flag. The call panics on an
/// ordering of `Acquire` or `AcqRel`, which `requires` leaves out; on the
/// others it does not unwind.
#[verifier::external_body]
fn flag_store(flag: &AtomicBool, bit: bool, order: Ordering)
    requires
        !(order is Acquire),
        !(order is AcqRel),
    opens_invariants none
    no_unwind
{
    flag.store(bit, order)
}

/// A busy-wait lock around one value of type `T`.
///
/// The lock owns the value. The only way to the value is a guard, and a guard
/// comes only from [`SpinLock::acquire`].
///
/// The lock is not `Sync`, because of its cell. A program that shares one lock
/// between cores wraps it in a type of its own and vouches for that type with
/// an `unsafe impl Sync`, for `T: Send`. It vouches that only the context that
/// owns the flag touches the cell. [`crate::model`] proves that of the model's
/// steps. Of the code below, the contracts hold each step to the phase that
/// the model gives it; that each step does to the flag and the cell what the
/// model's step does is not proved.
#[verifier::reject_recursive_types(T)]
pub struct SpinLock<T> {
    flag: AtomicBool,
    slot: Cell<Option<T>>,
}

/// The value on its way through one critical section, with the duty to bring
/// it back: when a loan ends, the value returns to the lock's cell and the
/// flag is cleared after that.
#[verifier::reject_recursive_types(T)]
struct Loan<'a, T> {
    lock: &'a SpinLock<T>,
    value: Option<T>,
}

/// Exclusive access to the value of a [`SpinLock`], for as long as the guard
/// lives. When the guard goes out of scope, on whatever path, the lock is
/// released; there is no other way to release it.
///
/// A panic inside the critical section that unwinds ends the guard like any
/// other way out: the lock is released, with the value as the panic left it.
/// The lock is not poisoned. Where a panic halts the machine instead, the
/// lock stays locked.
#[verifier::reject_recursive_types(T)]
pub struct SpinLockGuard<'a, T> {
    loan: Loan<'a, T>,
}

/// Moves the value out of `place` and leaves it empty.
fn vacate<T>(place: &mut Option<T>) -> (value: Option<T>)
    ensures
        value == *old(place),
        *final(place) is None,
    opens_invariants none
    no_unwind
{
    let mut value: Option<T> = None;
    std::mem::swap(place, &mut value);
    value
}

/// The value in `place`, to read and to write.
fn occupant<T>(place: &mut Option<T>) -> (value: &mut T)
    requires
        *old(place) is Some,
    ensures
        *value == old(place)->0,
        *final(place) == Some(*final(value)),
    opens_invariants none
    no_unwind
{
    match place {
        Some(value) => value,
        None => unreached(),
    }
}

impl<T> SpinLock<T> {
    /// A lock around `item`, unlocked.
    pub fn new(item: T) -> (lock: Self) {
        SpinLock { flag: AtomicBool::new(fresh_bit()), slot: Cell::new(Some(item)) }
    }

    /// Tries to win the lock by test-and-test-and-set, with at most `patience`
    /// looks at the flag.
    ///
    /// The context first tries the exchange of the flag from unlocked to
    /// locked. If it loses, it reads the flag, with a spin-wait hint after
    /// each read that shows the flag locked, until a read shows it unlocked,
    /// and then tries the exchange again. Each exchange and each read uses up
    /// one look. The result is the guard if an exchange was won, and `None`
    /// if the looks ran out first. Which of the two happens is decided by what
    /// other contexts do with the lock in the meantime. A lock whose holder
    /// never lets go is never won; that is a hazard of the design and no
    /// error.
    ///
    /// There is no order among waiting contexts: which of them wins next is
    /// open. A caller that wants to wait without bound calls again until a
    /// guard comes back; `u64::MAX` looks already outlast any machine.
    pub fn acquire(&self, patience: u64) -> (attempt: Option<SpinLockGuard<'_, T>>)
        ensures
            patience == 0 ==> attempt is None,
            attempt matches Some(guard) ==> guard.lock() == *self,
    {
        let mut phase = Phase::Exchange;
        let mut looks: u64 = patience;
        while looks > 0 && phase != Phase::Claimed
            invariant
                phase == Phase::Exchange || phase == Phase::Probe || phase == Phase::Claimed,
                looks <= patience,
                patience == 0 ==> phase == Phase::Exchange,
            decreases looks,
        {
            looks = looks - 1;
            phase = self.look(phase);
        }
        self.settle(phase)
    }

    /// One look at the flag by a context that is acquiring: the exchange if
    /// that is its phase, a read if it is waiting. The phase that comes back
    /// is the one that the rules give for what the look found. Only an
    /// exchange leads to `Claimed`.
    fn look(&self, phase: Phase) -> (next: Phase)
        requires
            phase == Phase::Exchange || phase == Phase::Probe,
        ensures
            phase == Phase::Exchange ==> exists|before: LockState|
                next == phase_after_exchange(#[trigger] exchange_report(before)),
            phase == Phase::Probe ==> exists|seen: LockState|
                next == #[trigger] phase_after_probe(seen),
            next == Phase::Exchange || next == Phase::Probe || next == Phase::Claimed,
            next == Phase::Claimed ==> phase == Phase::Exchange,
    {
        if phase == Phase::Exchange {
            let report = self.exchange();
            after_exchange(report)
        } else {
            let seen = self.probe();
            let next = after_probe(seen);
            if next == Phase::Probe {
                std::hint::spin_loop();
            }
            proof {
                assert(next == phase_after_probe(seen));
            }
            next
        }
    }

    /// Ends an acquire in the phase it has reached: with the guard if the
    /// flag was won, with nothing if the looks ran out before that.
    fn settle(&self, phase: Phase) -> (attempt: Option<SpinLockGuard<'_, T>>)
        ensures
            phase != Phase::Claimed ==> attempt is None,
            attempt matches Some(guard) ==> guard.lock() == *self,
    {
        if phase == Phase::Claimed {
            self.claim(phase)
        } else {
            None
        }
    }

    /// One exchange of the flag from unlocked to locked, ordered as an acquire
    /// if it is won and relaxed if it is lost.
    fn exchange(&self) -> (report: Result<bool, bool>)
        ensures
            exists|before: LockState| report == exchange_report(before),
    {
        let bits = exchange_bits();
        let report = flag_compare_exchange(&self.flag, bits.0, bits.1, won_order(), lost_order());
        proof {
            if report is Ok {
                assert(report == exchange_report(LockState::Unlocked));
            } else {
                assert(report == exchange_report(LockState::Locked));
            }
        }
        report
    }

    /// What one relaxed read of the flag shows. Another context may change the
    /// flag right after the read, and the read may show the flag as it was
    /// shortly before, so to a context that shares the lock the answer is a
    /// hint for waiting and no promise.
    pub fn probe(&self) -> (seen: LockState) {
        LockState::from_bit(flag_load(&self.flag, probe_order()))
    }

    /// Takes the value out of the cell for the context that has just won the
    /// flag, and makes its guard. Only a context that has won the flag may
    /// touch the cell.
    fn claim(&self, phase: Phase) -> (attempt: Option<SpinLockGuard<'_, T>>)
        requires
            phase == Phase::Claimed,
        ensures
            attempt matches Some(guard) ==> guard.lock() == *self,
    {
        self.lend(cell_replace(&self.slot, None))
    }

    /// Makes the guard around what came out of the cell. The cell is empty
    /// only while a guard has the value, and then the flag is locked and no
    /// exchange is won; should the cell have been empty all the same, no guard
    /// is made and the flag stays locked.
    fn lend(&self, content: Option<T>) -> (attempt: Option<SpinLockGuard<'_, T>>)
        ensures
            attempt is Some <==> content is Some,
            attempt matches Some(guard) ==> guard@ == content->0 && guard.lock() == *self,
    {
        match content {
            Some(value) => Some(SpinLockGuard { loan: Loan { lock: self, value: Some(value) } }),
            None => None,
        }
    }

    /// Puts the value of a guard that ends back into the cell. The flag is
    /// still locked then, so no other context is at the cell.
    fn give_back(&self, value: Option<T>, phase: Phase) -> (next: Phase)
        requires
            phase == Phase::Holding,
        ensures
            next == Phase::Returned,
        opens_invariants none
        no_unwind
    {
        let _ = cell_replace(&self.slot, value);
        Phase::Returned
    }

    /// Clears the flag, ordered as a release: what the holder wrote is seen by
    /// whoever wins the flag next. The value must be back in the cell before.
    fn release(&self, phase: Phase)
        requires
            phase == Phase::Returned,
        opens_invariants none
        no_unwind
    {
        flag_store(&self.flag, release_bit(), release_order());
    }
}

impl<T: Default> Default for SpinLock<T> {
    /// A lock around the default value of `T`, unlocked.
    fn default() -> (lock: Self) {
        SpinLock::new(T::default())
    }
}

impl<'a, T> Drop for Loan<'a, T> {
    /// Brings the value back to the cell, then releases the lock.
    fn drop(&mut self)
        opens_invariants none
        no_unwind
    {
        let value = vacate(&mut self.value);
        let phase = self.lock.give_back(value, Phase::Holding);
        self.lock.release(phase);
    }
}

impl<'a, T> SpinLockGuard<'a, T> {
    #[verifier::type_invariant]
    spec fn has_value(&self) -> bool {
        self.loan.value is Some
    }

    /// The protected value as the guard has it now.
    pub closed spec fn view(&self) -> T {
        self.loan.value->0
    }

    /// The lock that the guard belongs to.
    pub closed spec fn lock(&self) -> SpinLock<T> {
        *self.loan.lock
    }
}

impl<'a, T> std::ops::Deref for SpinLockGuard<'a, T> {
    type Target = T;

    /// The protected value, to read.
    fn deref(&self) -> (value: &T)
        ensures
            *value == self@,
    {
        proof {
            use_type_invariant(self);
        }
        match &self.loan.value {
            Some(value) => value,
            None => unreached(),
        }
    }
}

impl<'a, T> std::ops::DerefMut for SpinLockGuard<'a, T> {
    /// The protected value, to read and to write. What is written becomes the
    /// guard's value; the guard stays with its lock.
    fn deref_mut(&mut self) -> (value: &mut T)
        ensures
            *value == old(self)@,
            final(self)@ == *final(value),
            final(self).lock() == old(self).lock(),
    {
        proof {
            use_type_invariant(&*self);
        }
        occupant(&mut self.loan.value)
    }
}

} // verus!
