//! A busy-wait mutual-exclusion core, verified as a sequential model of its
//! protocol.
//!
//! The real primitive coordinates threads through one atomic flag: an acquire
//! attempt tests-and-sets the flag in a single step, a winner receives a guard
//! that grants exclusive access to the payload, and destroying the guard is
//! the only path that clears the flag. Atomic instructions, the unsafe
//! aliasing of the payload cell and OS threads cannot appear in verified
//! code, so this crate verifies the protocol itself on a sequential model:
//! the flag and the payload are plain fields, an acquire attempt is a
//! function whose contract says exactly what the test-and-set observes and
//! changes, and the guard owns the payload for its lifetime, returning it to
//! the core on release. A thin unverified harness can then drive any number
//! of real threads through these decisions; `spin_step` is the one it takes
//! verbatim.

use vstd::prelude::*;

verus! {

/// The lock core: the `locked` flag is the sole coordination state, and the
/// payload is present exactly while no guard is out. The core owns the
/// payload for its whole lifetime except while a guard holds it.
pub struct Mutex<T> {
    locked: bool,
    payload: Option<T>,
}

/// Exclusive access to the payload between a successful acquire and the
/// release that ends it. In the sequential model the guard owns the payload
/// outright, which is what makes a second live guard impossible: the core
/// has nothing left to hand out.
pub struct MutexGuard<T> {
    payload: T,
}

impl<T> MutexGuard<T> {
    /// The payload this guard grants access to.
    pub closed spec fn value(self) -> T {
        self.payload
    }

    /// Read access to the payload, valid while the guard lives.
    pub fn deref(&self) -> (r: &T)
        ensures
            *r == self.value(),
    {
        &self.payload
    }

    /// Write access to the payload, valid while the guard lives.
    pub fn deref_mut(&mut self) -> (r: &mut T)
        ensures
            *r == old(self).value(),
            final(self).value() == *final(r),
    {
        &mut self.payload
    }

    /// Guard destruction: clears the core's flag and returns the payload to
    /// the core, unconditionally and exactly once, because the guard is
    /// consumed. In the concurrent primitive this is the drop hook with
    /// release ordering; every write made through the guard is in the
    /// payload it hands back.
    pub fn release(self, mutex: &mut Mutex<T>)
        requires
            old(mutex).wf(),
            old(mutex).is_locked(),
        ensures
            final(mutex).wf(),
            !final(mutex).is_locked(),
            *final(mutex) == old(mutex).spec_released(self.value()),
            final(mutex).value() == self.value(),
    {
        mutex.payload = Some(self.payload);
        mutex.locked = false;
    }
}

impl<T> Mutex<T> {
    /// Whether the flag is set, i.e. whether a guard is currently out.
    pub closed spec fn is_locked(self) -> bool {
        self.locked
    }

    /// The payload as the core stores it: `None` exactly while a guard is out.
    pub closed spec fn stored(self) -> Option<T> {
        self.payload
    }

    /// The payload while no guard is out.
    pub open spec fn value(self) -> T
        recommends
            !self.is_locked(),
    {
        self.stored().unwrap()
    }

    /// The core's invariant: the flag is set if and only if the payload is
    /// out with a guard.
    pub open spec fn wf(self) -> bool {
        self.is_locked() <==> self.stored() is None
    }

    /// An acquire attempt succeeds exactly when the flag is clear.
    pub open spec fn can_acquire(self) -> bool {
        !self.is_locked()
    }

    /// The core after a successful acquire: flag set, payload out.
    pub closed spec fn spec_acquired(self) -> Mutex<T> {
        Mutex { locked: true, payload: None }
    }

    /// The core after a release that returns payload `v`: flag clear,
    /// payload back in place.
    pub closed spec fn spec_released(self, v: T) -> Mutex<T> {
        Mutex { locked: false, payload: Some(v) }
    }

    /// A core in the unlocked state holding `data`. No failure mode.
    pub fn new(data: T) -> (m: Mutex<T>)
        ensures
            m.wf(),
            !m.is_locked(),
            m.value() == data,
    {
        Mutex { locked: false, payload: Some(data) }
    }

    /// One atomic read-and-set attempt on the flag: observe it and set it in
    /// the same step. If the flag was already set the attempt fails and the
    /// core is unchanged; if it was clear the caller has won the race and
    /// receives the guard, with the payload the previous holder left. In the
    /// concurrent primitive this is the swap with acquire ordering.
    pub fn acquire_attempt(&mut self) -> (g: Option<MutexGuard<T>>)
        requires
            old(self).wf(),
        ensures
            final(self).wf(),
            final(self).is_locked(),
            g is Some <==> old(self).can_acquire(),
            old(self).is_locked() ==> *final(self) == *old(self),
            !old(self).is_locked() ==> {
                &&& *final(self) == old(self).spec_acquired()
                &&& g->Some_0.value() == old(self).value()
            },
    {
        if self.locked {
            None
        } else {
            self.locked = true;
            let payload = self.payload.take();
            match payload {
                Some(p) => Some(MutexGuard { payload: p }),
                None => None,
            }
        }
    }

    /// Acquire: repeat the read-and-set attempt until it succeeds, then
    /// return the guard, which always carries the payload the core held.
    /// The concurrent primitive blocks here for as long as the flag stays
    /// set; a sequential caller is the only one who could clear it, so the
    /// call is bound to return — and hence asks — that the flag be clear at
    /// entry, the spin loop then winning on its first attempt.
    pub fn lock(&mut self) -> (g: MutexGuard<T>)
        requires
            old(self).wf(),
            old(self).can_acquire(),
        ensures
            final(self).wf(),
            final(self).is_locked(),
            *final(self) == old(self).spec_acquired(),
            g.value() == old(self).value(),
    {
        loop
            invariant
                self.wf(),
                *self == *old(self),
                self.can_acquire(),
            decreases 1int,
        {
            let attempt = self.acquire_attempt();
            match attempt {
                Some(g) => {
                    return g;
                },
                None => {
                    // The attempt observed the flag set and would retry;
                    // with a clear flag at entry this arm is unreachable.
                    proof {
                        assert(false);
                    }
                },
            }
        }
    }

    /// The state after one full critical section: an acquire that succeeds,
    /// a body that leaves the payload at `w`, and the release.
    pub open spec fn spec_cycle(self, w: T) -> Mutex<T> {
        self.spec_acquired().spec_released(w)
    }

    /// The state after a run of critical sections, one per entry of
    /// `writes`, each leaving the payload at its entry's value.
    pub open spec fn spec_cycles(self, writes: Seq<T>) -> Mutex<T>
        decreases writes.len(),
    {
        if writes.len() == 0 {
            self
        } else {
            self.spec_cycle(writes[0]).spec_cycles(writes.drop_first())
        }
    }
}

/// Every contender in a run acquires: starting from `m`, each critical
/// section in turn finds the flag clear, so its acquire succeeds.
pub open spec fn all_cycles_acquire<T>(m: Mutex<T>, writes: Seq<T>) -> bool
    decreases writes.len(),
{
    writes.len() == 0 || {
        &&& m.can_acquire()
        &&& all_cycles_acquire(m.spec_cycle(writes[0]), writes.drop_first())
    }
}

/// Mutual exclusion: while one guard is live the flag is set, and no further
/// acquire can succeed, so the live intervals of two guards issued by the
/// same core never overlap.
pub proof fn lemma_mutual_exclusion<T>(m: Mutex<T>)
    requires
        m.wf(),
        m.can_acquire(),
    ensures
        !m.spec_acquired().can_acquire(),
{
}

/// No double release: a release clears the flag (so it is cleared at least
/// once per successful acquire), and the core it leaves is not locked, so
/// the release's own precondition rules a second one out.
pub proof fn lemma_no_double_release<T>(m: Mutex<T>, v: T)
    requires
        m.wf(),
        m.is_locked(),
    ensures
        m.spec_released(v).wf(),
        !m.spec_released(v).is_locked(),
{
}

/// Freedom from leaked locks: whatever value `v` a critical section left in
/// the payload — including one cut short, whose guard is destroyed while
/// unwinding — its release restores a core on which the next acquire
/// succeeds and reads `v`.
pub proof fn lemma_release_unblocks<T>(m: Mutex<T>, v: T)
    requires
        m.wf(),
        m.is_locked(),
    ensures
        m.spec_released(v).wf(),
        m.spec_released(v).can_acquire(),
        m.spec_released(v).value() == v,
{
}

/// Visibility: across any number of critical sections, the payload the next
/// acquire reads is the last value written, and the core returns to the
/// unlocked, well-formed state after every run.
pub proof fn lemma_visibility<T>(m: Mutex<T>, writes: Seq<T>)
    requires
        m.wf(),
        m.can_acquire(),
        writes.len() > 0,
    ensures
        m.spec_cycles(writes).wf(),
        m.spec_cycles(writes).can_acquire(),
        m.spec_cycles(writes).value() == writes.last(),
    decreases writes.len(),
{
    if writes.len() == 1 {
        assert(writes.drop_first().len() == 0);
        assert(m.spec_cycle(writes[0]).spec_cycles(writes.drop_first()) == m.spec_cycle(
            writes[0],
        ));
    } else {
        lemma_visibility(m.spec_cycle(writes[0]), writes.drop_first());
        assert(writes.drop_first().last() == writes.last());
    }
}

/// Eventual acquisition: in any finite run of contenders served one critical
/// section at a time, every contender's acquire succeeds — none is locked
/// out for good, because each release hands the next attempt a clear flag.
pub proof fn lemma_eventual_acquisition<T>(m: Mutex<T>, writes: Seq<T>)
    requires
        m.wf(),
        m.can_acquire(),
    ensures
        all_cycles_acquire(m, writes),
    decreases writes.len(),
{
    if writes.len() > 0 {
        lemma_eventual_acquisition(m.spec_cycle(writes[0]), writes.drop_first());
    }
}

/// What the busy-wait loop does with the flag value one read-and-set attempt
/// observed.
pub enum SpinAction {
    /// The attempt observed the flag clear and set it: the caller has won
    /// and enters the critical section.
    Enter,
    /// The attempt observed the flag already set: pause briefly and retry.
    Retry,
}

/// The decision taken at each iteration of the busy-wait loop, kept here so
/// that a harness driving real threads spins exactly as the model does.
pub fn spin_step(observed_locked: bool) -> (a: SpinAction)
    ensures
        a == (if observed_locked {
            SpinAction::Retry
        } else {
            SpinAction::Enter
        }),
{
    if observed_locked {
        SpinAction::Retry
    } else {
        SpinAction::Enter
    }
}

} // verus!
