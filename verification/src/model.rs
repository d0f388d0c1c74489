//! The lock's rules run for any number of contexts.
//!
//! A [`World`] is one lock and the contexts that use it. A context is one
//! use of the lock: an acquire, the critical section behind it and the
//! release. A thread that acquires again while it still has a guard is two
//! contexts. A [`Step`] is one indivisible action of one context: an exchange
//! of the flag, a read of it, a move of the protected value. Steps of
//! different contexts interleave in any order. The protected value is an
//! integer here.
//!
//! An exchange acts on the flag as it is. A read may show the flag as it was
//! some time ago, so a read step says what the context saw, and every
//! statement here holds whatever that is.
//!
//! The proofs at the end say what holds in every world that such steps can
//! lead to.
use crate::protocol::exchange_effect;
use crate::protocol::exchange_report;
use crate::protocol::fresh_flag;
use crate::protocol::phase_after_exchange;
use crate::protocol::phase_after_probe;
use crate::protocol::released_flag;
use crate::protocol::LockState;
use crate::protocol::Phase;
use vstd::prelude::*;

verus! {

/// One context: where it stands, and the value in its guard while it has one.
pub struct Context {
    pub phase: Phase,
    pub held: int,
}

/// One lock and its contexts.
pub struct World {
    /// The lock's flag.
    pub flag: LockState,
    /// The lock's cell: the protected value, or nothing while a guard has it.
    pub slot: Option<int>,
    /// The contexts, by index.
    pub contexts: Seq<Context>,
}

/// One action of the context with the given index.
pub enum Step {
    /// Starts to acquire the lock.
    Begin(int),
    /// Tries the exchange of the flag from unlocked to locked.
    Exchange(int),
    /// Reads the flag and sees the given state.
    Probe(int, LockState),
    /// Stops acquiring without the lock.
    GiveUp(int),
    /// Moves the protected value out of the cell into its guard.
    Take(int),
    /// Writes the given value through its guard.
    Write(int, int),
    /// Moves the value from its guard back into the cell.
    Return(int),
    /// Clears the flag.
    Clear(int),
}

impl Step {
    /// The index of the context that acts.
    pub open spec fn actor(self) -> int {
        match self {
            Step::Begin(i) => i,
            Step::Exchange(i) => i,
            Step::Probe(i, _) => i,
            Step::GiveUp(i) => i,
            Step::Take(i) => i,
            Step::Write(i, _) => i,
            Step::Return(i) => i,
            Step::Clear(i) => i,
        }
    }

    /// The phase in which a context can take this step.
    pub open spec fn fits(self, phase: Phase) -> bool {
        match self {
            Step::Begin(_) => phase == Phase::Idle,
            Step::Exchange(_) => phase == Phase::Exchange,
            Step::Probe(_, _) => phase == Phase::Probe,
            Step::GiveUp(_) => phase == Phase::Exchange || phase == Phase::Probe,
            Step::Take(_) => phase == Phase::Claimed,
            Step::Write(_, _) => phase == Phase::Holding,
            Step::Return(_) => phase == Phase::Holding,
            Step::Clear(_) => phase == Phase::Returned,
        }
    }
}

/// Whether a context in this phase has won the flag and not yet cleared it.
pub open spec fn owns(phase: Phase) -> bool {
    phase == Phase::Claimed || phase == Phase::Holding || phase == Phase::Returned
}

impl World {
    /// A new lock around `item` with `contexts` contexts, none of which wants
    /// the lock yet.
    pub open spec fn fresh(contexts: nat, item: int) -> World {
        World {
            flag: fresh_flag(),
            slot: Some(item),
            contexts: Seq::new(contexts, |i: int| Context { phase: Phase::Idle, held: 0 }),
        }
    }

    /// Whether `i` is the index of a context.
    pub open spec fn has(self, i: int) -> bool {
        0 <= i < self.contexts.len()
    }

    /// Whether context `i` has won the flag and not yet cleared it.
    pub open spec fn owner(self, i: int) -> bool {
        self.has(i) && owns(self.contexts[i].phase)
    }

    /// Whether context `i` has a guard: the protected value is in its hands.
    pub open spec fn holder(self, i: int) -> bool {
        self.has(i) && self.contexts[i].phase == Phase::Holding
    }

    /// Whether the step can be taken in this world.
    pub open spec fn enabled(self, step: Step) -> bool {
        self.has(step.actor()) && step.fits(self.contexts[step.actor()].phase)
    }

    /// This world with context `i` moved to `phase`.
    pub open spec fn at(self, i: int, phase: Phase) -> World {
        World {
            contexts: self.contexts.update(i, Context { phase, held: self.contexts[i].held }),
            ..self
        }
    }

    /// The world after the step. A step that cannot be taken changes nothing.
    pub open spec fn next(self, step: Step) -> World {
        if !self.enabled(step) {
            self
        } else {
            match step {
                Step::Begin(i) => self.at(i, Phase::Exchange),
                Step::Exchange(i) => World {
                    flag: exchange_effect(self.flag),
                    ..self.at(i, phase_after_exchange(exchange_report(self.flag)))
                },
                Step::Probe(i, seen) => self.at(i, phase_after_probe(seen)),
                Step::GiveUp(i) => self.at(i, Phase::Idle),
                Step::Take(i) => match self.slot {
                    Some(value) => World {
                        slot: None,
                        contexts: self.contexts.update(
                            i,
                            Context { phase: Phase::Holding, held: value },
                        ),
                        ..self
                    },
                    None => self.at(i, Phase::Idle),
                },
                Step::Write(i, value) => World {
                    contexts: self.contexts.update(
                        i,
                        Context { phase: Phase::Holding, held: value },
                    ),
                    ..self
                },
                Step::Return(i) => World {
                    slot: Some(self.contexts[i].held),
                    ..self.at(i, Phase::Returned)
                },
                Step::Clear(i) => World { flag: released_flag(), ..self.at(i, Phase::Idle) },
            }
        }
    }

    /// The world after the steps, taken in order.
    pub open spec fn run(self, steps: Seq<Step>) -> World
        decreases steps.len(),
    {
        if steps.len() == 0 {
            self
        } else {
            self.run(steps.drop_last()).next(steps.last())
        }
    }

    /// What every world that the steps lead to from a fresh one has in
    /// common: at most one context owns the flag, the flag is locked exactly
    /// while one does, and the cell is empty exactly while one has a guard.
    pub open spec fn coherent(self) -> bool {
        &&& forall|i: int, j: int| #[trigger] self.owner(i) && #[trigger] self.owner(j) ==> i == j
        &&& self.flag == LockState::Locked <==> exists|i: int| #[trigger] self.owner(i)
        &&& self.slot is None <==> exists|i: int| #[trigger] self.holder(i)
    }

    /// The protected value as the last write left it: in the cell, or in the
    /// guard that has it.
    pub open spec fn value(self) -> int {
        match self.slot {
            Some(value) => value,
            None => self.contexts[choose|i: int| self.holder(i)].held,
        }
    }

    /// The number of writes among the steps that are taken.
    pub open spec fn writes(self, steps: Seq<Step>) -> nat
        decreases steps.len(),
    {
        if steps.len() == 0 {
            0
        } else {
            let before = self.run(steps.drop_last());
            let earlier = self.writes(steps.drop_last());
            if steps.last() is Write && before.enabled(steps.last()) {
                earlier + 1
            } else {
                earlier
            }
        }
    }

    /// Whether every write among the steps that is taken adds one to the
    /// value that the writer has.
    pub open spec fn increments_only(self, steps: Seq<Step>) -> bool
        decreases steps.len(),
    {
        steps.len() > 0 ==> {
            let before = self.run(steps.drop_last());
            &&& self.increments_only(steps.drop_last())
            &&& match steps.last() {
                Step::Write(i, value) => before.enabled(steps.last()) ==> value
                    == before.contexts[i].held + 1,
                _ => true,
            }
        }
    }

    /// Whether context `i` keeps its guard through the steps: none of them is
    /// its return of the value.
    pub open spec fn keeps_guard(i: int, steps: Seq<Step>) -> bool {
        forall|k: int| 0 <= k < steps.len() ==> #[trigger] steps[k] != Step::Return(i)
    }
}

/// A fresh world is coherent.
pub proof fn fresh_is_coherent(contexts: nat, item: int)
    ensures
        World::fresh(contexts, item).coherent(),
        World::fresh(contexts, item).value() == item,
{
    let w = World::fresh(contexts, item);
    assert forall|i: int| !w.owner(i) by {}
    assert forall|i: int| !w.holder(i) by {}
}

/// A context that has a guard owns the flag.
proof fn holders_are_owners(w: World)
    ensures
        forall|i: int| #[trigger] w.holder(i) ==> w.owner(i),
{
}

/// A step keeps a coherent world coherent.
pub proof fn step_keeps_coherent(w: World, step: Step)
    requires
        w.coherent(),
    ensures
        w.next(step).coherent(),
{
    let v = w.next(step);
    if w.enabled(step) {
        let a = step.actor();
        holders_are_owners(w);
        holders_are_owners(v);
        assert forall|i: int| i != a implies (v.owner(i) == w.owner(i) && v.holder(i) == w.holder(i)) by {}
        if w.owner(a) {
            assert forall|i: int| w.owner(i) implies i == a by {}
        }
        if w.owner(a) == v.owner(a) && w.holder(a) == v.holder(a) && v.flag == w.flag && v.slot
            == w.slot {
            if w.owner(a) {
                assert(v.owner(a));
            } else {
                coherent_when_actor_stays_out(w, v, a);
            }
        } else {
            match step {
                Step::Exchange(_) => {
                    assert(w.flag == LockState::Unlocked);
                    assert(v.owner(a));
                },
                Step::Take(_) => {
                    assert(w.owner(a));
                    assert(v.holder(a));
                },
                Step::Return(_) => {
                    assert(w.holder(a));
                    assert(v.owner(a));
                },
                Step::Clear(_) => {
                    assert(w.owner(a));
                },
                _ => {},
            }
        }
    }
}

/// A step of a context that owns the flag neither before nor after it, and
/// that leaves flag and cell alone, keeps a coherent world coherent.
proof fn coherent_when_actor_stays_out(w: World, v: World, a: int)
    requires
        w.coherent(),
        v.flag == w.flag,
        v.slot == w.slot,
        v.contexts.len() == w.contexts.len(),
        !w.owner(a),
        !v.owner(a),
        forall|i: int| i != a ==> v.owner(i) == w.owner(i) && v.holder(i) == w.holder(i),
    ensures
        v.coherent(),
{
    assert(!w.holder(a) && !v.holder(a));
    assert forall|i: int| v.owner(i) == w.owner(i) by {}
    assert forall|i: int| v.holder(i) == w.holder(i) by {}
    if w.flag == LockState::Locked {
        let i = choose|i: int| w.owner(i);
        assert(v.owner(i));
    }
    if w.slot is None {
        let i = choose|i: int| w.holder(i);
        assert(v.holder(i));
    }
}

/// Steps keep a coherent world coherent.
pub proof fn run_keeps_coherent(w: World, steps: Seq<Step>)
    requires
        w.coherent(),
    ensures
        w.run(steps).coherent(),
    decreases steps.len(),
{
    if steps.len() > 0 {
        run_keeps_coherent(w, steps.drop_last());
        step_keeps_coherent(w.run(steps.drop_last()), steps.last());
    }
}

/// While a guard has the protected value, the value of the world is the one
/// in that guard.
pub proof fn value_is_with_holder(w: World, i: int)
    requires
        w.coherent(),
        w.holder(i),
    ensures
        w.slot is None,
        w.value() == w.contexts[i].held,
{
    let k = choose|k: int| w.holder(k);
    assert(w.owner(k) && w.owner(i));
}

/// A context that has won the flag finds the protected value in the cell.
pub proof fn winner_finds_value(w: World, i: int)
    requires
        w.coherent(),
        w.has(i),
        w.contexts[i].phase == Phase::Claimed,
    ensures
        w.slot is Some,
        w.next(Step::Take(i)).holder(i),
        w.next(Step::Take(i)).contexts[i].held == w.value(),
{
    assert(w.owner(i));
    assert forall|k: int| !w.holder(k) by {
        if w.holder(k) {
            assert(w.owner(k));
        }
    }
}

/// Only a write through the guard changes the protected value: the value
/// passes unchanged from the cell to a guard and back, and from one holder to
/// the next.
pub proof fn step_keeps_value(w: World, step: Step)
    requires
        w.coherent(),
    ensures
        w.next(step).value() == match step {
            Step::Write(_, value) => if w.enabled(step) {
                value
            } else {
                w.value()
            },
            _ => w.value(),
        },
{
    let v = w.next(step);
    step_keeps_coherent(w, step);
    if w.enabled(step) {
        let a = step.actor();
        match step {
            Step::Take(_) => {
                winner_finds_value(w, a);
                value_is_with_holder(v, a);
            },
            Step::Write(_, _) => {
                assert(v.holder(a));
                value_is_with_holder(v, a);
            },
            Step::Return(_) => {
                value_is_with_holder(w, a);
            },
            _ => {
                if w.slot is None {
                    let k = choose|k: int| w.holder(k);
                    assert(k != a);
                    assert(v.holder(k));
                    value_is_with_holder(w, k);
                    value_is_with_holder(v, k);
                }
            },
        }
    }
}

/// At most one guard is alive at any instant: in every world that steps lead
/// to from a fresh lock, for any number of contexts and any order of their
/// steps, two contexts that have a guard are the same context. The flag is
/// locked exactly while some context owns it.
pub proof fn mutual_exclusion(contexts: nat, item: int, steps: Seq<Step>, i: int, j: int)
    ensures
        ({
            let w = World::fresh(contexts, item).run(steps);
            &&& w.holder(i) && w.holder(j) ==> i == j
            &&& w.owner(i) && w.owner(j) ==> i == j
            &&& w.owner(i) ==> w.flag == LockState::Locked
            &&& w.flag == LockState::Locked ==> exists|k: int| w.owner(k)
        }),
{
    fresh_is_coherent(contexts, item);
    run_keeps_coherent(World::fresh(contexts, item), steps);
    let w = World::fresh(contexts, item).run(steps);
    if w.holder(i) && w.holder(j) {
        assert(w.owner(i) && w.owner(j));
    }
}

/// What is written in one critical section is what the next holder finds:
/// when every write adds one to the value that its writer has, the protected
/// value after the steps is the value before them plus the number of writes,
/// whichever contexts wrote and in whatever order they took the lock.
pub proof fn increments_add_up(w: World, steps: Seq<Step>)
    requires
        w.coherent(),
        w.increments_only(steps),
    ensures
        w.run(steps).value() == w.value() + w.writes(steps),
    decreases steps.len(),
{
    if steps.len() > 0 {
        let before = w.run(steps.drop_last());
        increments_add_up(w, steps.drop_last());
        run_keeps_coherent(w, steps.drop_last());
        step_keeps_value(before, steps.last());
        match steps.last() {
            Step::Write(i, _) => {
                if before.enabled(steps.last()) {
                    value_is_with_holder(before, i);
                }
            },
            _ => {},
        }
    }
}

/// Once the holder's guard is gone, the lock can be taken again: after the
/// holder has put the value back and cleared the flag, the flag is unlocked
/// and no context owns it, and a context that then starts to acquire wins its
/// first exchange and gets the value as the holder left it. That context may
/// be the former holder itself.
pub proof fn release_on_exit(w: World, i: int, j: int)
    requires
        w.coherent(),
        w.holder(i),
        w.has(j),
        j == i || w.contexts[j].phase == Phase::Idle,
    ensures
        ({
            let released = w.next(Step::Return(i)).next(Step::Clear(i));
            let claimed = released.next(Step::Begin(j)).next(Step::Exchange(j));
            let taken = claimed.next(Step::Take(j));
            &&& w.next(Step::Return(i)).contexts[i].phase == Phase::Returned
            &&& released.contexts[i].phase == Phase::Idle
            &&& released.flag == LockState::Unlocked
            &&& released.slot == Some(w.contexts[i].held)
            &&& forall|k: int| !#[trigger] released.owner(k)
            &&& claimed.contexts[j].phase == Phase::Claimed
            &&& taken.holder(j)
            &&& taken.contexts[j].held == w.contexts[i].held
        }),
{
    let released = w.next(Step::Return(i)).next(Step::Clear(i));
    step_keeps_coherent(w, Step::Return(i));
    step_keeps_coherent(w.next(Step::Return(i)), Step::Clear(i));
    assert forall|k: int| !#[trigger] released.owner(k) by {
        if released.owner(k) {
            assert(released.flag == LockState::Locked);
        }
    }
}

/// While a guard is alive no other context gets the lock, however long it
/// tries: after any steps among which the holder does not return the value,
/// the holder still has its guard and every other context is without the
/// flag.
pub proof fn no_second_guard(w: World, i: int, steps: Seq<Step>, j: int)
    requires
        w.coherent(),
        w.holder(i),
        World::keeps_guard(i, steps),
        j != i,
    ensures
        w.run(steps).holder(i),
        !w.run(steps).owner(j),
        w.run(steps).flag == LockState::Locked,
    decreases steps.len(),
{
    run_keeps_coherent(w, steps);
    if steps.len() > 0 {
        let earlier = steps.drop_last();
        assert forall|k: int| 0 <= k < earlier.len() implies #[trigger] earlier[k] != Step::Return(
            i,
        ) by {
            assert(earlier[k] == steps[k]);
        }
        no_second_guard(w, i, earlier, j);
        let before = w.run(earlier);
        let step = steps.last();
        assert(step == steps[steps.len() - 1]);
        assert(step != Step::Return(i));
        run_keeps_coherent(w, earlier);
        if before.enabled(step) && step.actor() != i {
            assert(before.owner(i));
            assert(!before.owner(step.actor()));
        }
        assert(w.run(steps).holder(i));
    }
    assert(w.run(steps).owner(i));
}

/// A fresh lock is won at once: the first context to acquire wins its first
/// exchange, without a single read of the flag, and gets the item that the
/// lock was made with.
pub proof fn fresh_lock_is_won(contexts: nat, item: int, i: int)
    requires
        0 <= i < contexts,
    ensures
        ({
            let claimed = World::fresh(contexts, item).next(Step::Begin(i)).next(Step::Exchange(i));
            let taken = claimed.next(Step::Take(i));
            &&& claimed.contexts[i].phase == Phase::Claimed
            &&& taken.holder(i)
            &&& taken.contexts[i].held == item
        }),
{
}

} // verus!
