//! A busy-wait lock with scoped release.
//!
//! [`spinlock::SpinLock`] guards one value behind an atomic flag. A context
//! that wins the flag receives a [`spinlock::SpinLockGuard`]; the guard gives
//! read and write access to the value and hands the lock back when it goes
//! out of scope.
//!
//! [`protocol`] holds the rules the lock follows on plain values: the two
//! states of the flag and the test-and-test-and-set steps of a context that
//! wants the lock. [`model`] runs those rules for any number of contexts and
//! proves what they guarantee.
pub mod model;
pub mod protocol;
pub mod spinlock;
