//! Scope guards and topic constructors.

use vstd::prelude::*;

use crate::relay::{BroadcastTopic, Dup, WatchTopic};

verus! {

/// A deferred compensating action, armed by [`defer`].
///
/// While the guard is held, the compensating action it stands for is armed:
/// whoever ends up dropping the guard on an abandonment path calls
/// [`ScopeGuard::fire`] and performs the action on the payload.  Once the
/// protected operation has succeeded (or failed in a way that needs no
/// compensation), [`ScopeGuard::defuse`] consumes the guard so the action
/// can never run.
pub struct ScopeGuard<T> {
    payload: T,
}

impl<T> ScopeGuard<T> {
    /// What the compensating action will act on.
    pub closed spec fn payload(self) -> T {
        self.payload
    }

    /// Disarms the guard: the compensating action will not run.
    pub fn defuse(self) {
    }

    /// Surrenders the payload so the compensating action can run on it.
    pub fn fire(self) -> (r: T)
        ensures
            r == self.payload(),
    {
        self.payload
    }
}

/// Arms a scope guard over the given payload.
pub fn defer<T>(payload: T) -> (g: ScopeGuard<T>)
    ensures
        g.payload() == payload,
{
    ScopeGuard { payload }
}

/// A broadcast topic with the given backlog capacity.  The topic itself
/// keeps the channel alive for its whole lifetime, so publishing with no
/// subscribers succeeds and is simply dropped.
pub fn broadcast<T: Dup>(cap: usize) -> (t: BroadcastTopic<T>)
    requires
        cap >= 1,
    ensures
        t.wf(),
        t.capacity() == cap,
        t.history() == Seq::<T>::empty(),
        t.receivers() == 0,
        t.active_receivers() == 0,
        t.base_index() == 0,
{
    BroadcastTopic::new(cap)
}

/// A watch topic: the single-slot relay that retains only the latest value.
pub fn watch<T: Dup>() -> (t: WatchTopic<T>)
    ensures
        t.wf(),
        t.history() == Seq::<T>::empty(),
        t.receiver_count() == 0,
{
    WatchTopic::new()
}

/// Copies a vector of plain values element by element.
pub fn dup_vec<T: Copy>(v: &Vec<T>) -> (r: Vec<T>)
    ensures
        r@ == v@,
{
    let mut r: Vec<T> = Vec::new();
    let n = v.len();
    let mut i: usize = 0;
    while i < n
        invariant
            i <= n,
            n == v@.len(),
            r@ == v@.subrange(0, i as int),
        decreases n - i,
    {
        r.push(v[i]);
        proof {
            assert(r@ =~= v@.subrange(0, i + 1));
        }
        i = i + 1;
    }
    proof {
        assert(r@ =~= v@);
    }
    r
}

} // verus!
