//! A value together with the snapshot it can be restored to.
//!
//! A model keeps its state this way (the initial state is the restore
//! target of `init` and `reset`), and a controller its parameters (captured
//! when it is bound to a track, restored by its `reset`).
use vstd::prelude::*;

verus! {

/// A current value and the snapshot taken when it was last rebased.
pub struct Resettable<T> {
    current: T,
    initial: T,
}

impl<T: Copy> Resettable<T> {
    /// The current value.
    pub closed spec fn value(self) -> T {
        self.current
    }

    /// The snapshot that `reset` restores.
    pub closed spec fn snapshot(self) -> T {
        self.initial
    }

    /// The result of replacing the current value, the snapshot kept.
    pub open spec fn spec_set(self, v: T) -> Self {
        Resettable::new_spec(v, self.snapshot())
    }

    /// The result of restoring the snapshot.
    pub open spec fn spec_reset(self) -> Self {
        Resettable::new_spec(self.snapshot(), self.snapshot())
    }

    /// The value whose current value is `v` and snapshot `s`.
    pub closed spec fn new_spec(v: T, s: T) -> Self {
        Resettable { current: v, initial: s }
    }

    /// Starts at `initial`, which is also the snapshot.
    pub fn new(initial: T) -> (r: Self)
        ensures
            r.value() == initial,
            r.snapshot() == initial,
    {
        Resettable { current: initial, initial }
    }

    /// The current value.
    pub fn get(&self) -> (r: T)
        ensures
            r == self.value(),
    {
        self.current
    }

    /// The current value, borrowed.
    pub fn current(&self) -> (r: &T)
        ensures
            *r == self.value(),
    {
        &self.current
    }

    /// The snapshot that `reset` restores.
    pub fn initial(&self) -> (r: T)
        ensures
            r == self.snapshot(),
    {
        self.initial
    }

    /// Replaces the current value; the snapshot is kept.
    pub fn set(&mut self, v: T)
        ensures
            *final(self) == old(self).spec_set(v),
            final(self).value() == v,
            final(self).snapshot() == old(self).snapshot(),
    {
        self.current = v;
    }

    /// Restores the snapshot.
    pub fn reset(&mut self)
        ensures
            *final(self) == old(self).spec_reset(),
            final(self).value() == old(self).snapshot(),
            final(self).snapshot() == old(self).snapshot(),
    {
        self.current = self.initial;
    }

    /// Makes `v` both the current value and the new snapshot.
    pub fn rebase(&mut self, v: T)
        ensures
            final(self).value() == v,
            final(self).snapshot() == v,
    {
        self.current = v;
        self.initial = v;
    }
}

/// The value after replacing the current value by each of `updates` in turn.
pub open spec fn after_updates<T: Copy>(r: Resettable<T>, updates: Seq<T>) -> Resettable<T>
    decreases updates.len(),
{
    if updates.len() == 0 {
        r
    } else {
        after_updates(r, updates.drop_last()).spec_set(updates.last())
    }
}

/// However many updates came after it, a reset restores exactly the state
/// that a reset gave before them: the snapshot.
pub proof fn lemma_reset_after_updates<T: Copy>(r: Resettable<T>, updates: Seq<T>)
    ensures
        after_updates(r, updates).snapshot() == r.snapshot(),
        after_updates(r, updates).spec_reset() == r.spec_reset(),
        after_updates(r, updates).spec_reset().value() == r.snapshot(),
    decreases updates.len(),
{
    if updates.len() > 0 {
        lemma_reset_after_updates(r, updates.drop_last());
    }
}

} // verus!
