use spinlock::protocol::LockState;
use spinlock::spinlock::SpinLock;

struct Census {
    alive: u32,
    most_alive: u32,
    entries: u64,
}

#[test]
fn at_most_one_guard_is_alive() {
    let lock = SpinLock::new(Census { alive: 0, most_alive: 0, entries: 0 });
    for _round in 0..100 {
        for _context in 0..8 {
            let mut guard = lock.acquire(1).unwrap();
            guard.alive += 1;
            guard.most_alive = guard.most_alive.max(guard.alive);
            guard.entries += 1;
            // Every other context polls while this one is inside.
            for other in 0..7u64 {
                assert!(lock.acquire(other + 1).is_none());
            }
            guard.alive -= 1;
        }
    }
    let census = lock.acquire(1).unwrap();
    assert_eq!(census.most_alive, 1);
    assert_eq!(census.alive, 0);
    assert_eq!(census.entries, 800);
}

#[test]
fn increments_through_the_lock_add_up() {
    let contexts: u64 = 5;
    let each: u64 = 1_000;
    let lock = SpinLock::new(0u64);
    for _turn in 0..each {
        for _context in 0..contexts {
            let mut guard = lock.acquire(1).unwrap();
            let seen = *guard;
            *guard = seen + 1;
        }
    }
    assert_eq!(*lock.acquire(1).unwrap(), 5_000);
}

#[test]
fn increments_start_from_the_initial_value() {
    let lock = SpinLock::new(17u64);
    for _ in 0..3 {
        *lock.acquire(1).unwrap() += 1;
    }
    assert_eq!(*lock.acquire(1).unwrap(), 20);
}

#[test]
fn eight_contexts_of_hundred_thousand_increments() {
    let lock = SpinLock::new(0u64);
    for _turn in 0..100_000u32 {
        for _context in 0..8u8 {
            let mut guard = lock.acquire(1).unwrap();
            *guard += 1;
        }
    }
    assert_eq!(*lock.acquire(1).unwrap(), 800_000);
}

#[test]
fn eight_contexts_contend_for_every_increment() {
    let lock = SpinLock::new(0u64);
    let mut turned_away: u64 = 0;
    for _turn in 0..1_000u32 {
        for _context in 0..8u8 {
            let mut guard = lock.acquire(1).unwrap();
            if lock.acquire(4).is_none() {
                turned_away += 1;
            }
            assert_eq!(lock.probe(), LockState::Locked);
            *guard += 1;
        }
        assert_eq!(lock.probe(), LockState::Unlocked);
    }
    assert_eq!(turned_away, 8_000);
    assert_eq!(*lock.acquire(1).unwrap(), 8_000);
}
