//! Trackers over a type's declared accessors, the tracked handle through
//! which a recording computation reads its argument, and the validity check.
use crate::access::{admits_output, faithful, AccessTracker};
use vstd::prelude::*;

verus! {

/// A type with a closed, ordered list of declared accessors. Accessor `i`
/// takes the value by shared reference, has no other argument and no side
/// effect, and returns a comparable output.
pub trait Trackable: Sized {
    /// What the accessors return.
    type Output: PartialEq + Clone;

    /// The number of declared accessors.
    spec fn accessor_count() -> nat;

    /// What accessor `i` returns on this value.
    spec fn accessor(&self, i: int) -> Self::Output;

    /// The number of declared accessors.
    fn count() -> (n: usize)
        ensures
            n as nat == Self::accessor_count(),
    ;

    /// Calls accessor `i` on this value.
    fn call(&self, i: usize) -> (r: Self::Output)
        requires
            (i as nat) < Self::accessor_count(),
        ensures
            r == self.accessor(i as int),
    ;
}

/// Observations that record nothing, one per declared accessor.
pub open spec fn unobserved<T: Trackable>() -> Seq<Option<T::Output>> {
    Seq::new(T::accessor_count(), |i: int| None::<T::Output>)
}

/// Whether `v` agrees with every recorded observation in `obs`.
pub open spec fn admits<T: Trackable>(obs: Seq<Option<T::Output>>, v: T) -> bool {
    forall|i: int| 0 <= i < obs.len() ==> admits_output(#[trigger] obs[i], v.accessor(i))
}

/// What recording the accessor calls `calls` against `v` observes: the
/// output of each called accessor, and nothing of the others.
pub open spec fn recording<T: Trackable>(v: T, calls: Seq<usize>) -> Seq<Option<T::Output>> {
    Seq::new(
        T::accessor_count(),
        |i: int|
            if calls.map_values(|c: usize| c as int).contains(i) {
                Some(v.accessor(i))
            } else {
                None
            },
    )
}

/// One accessor recorder per declared accessor, in declaration order.
pub struct Tracker<T: Trackable> {
    slots: Vec<AccessTracker<T::Output>>,
}

impl<T: Trackable> View for Tracker<T> {
    type V = Seq<Option<T::Output>>;

    closed spec fn view(&self) -> Seq<Option<T::Output>> {
        self.slots@.map_values(|s: AccessTracker<T::Output>| s@)
    }
}

impl<T: Trackable> Tracker<T> {
    /// One observation per declared accessor.
    pub open spec fn wf(&self) -> bool {
        self@.len() == T::accessor_count()
    }

    /// A tracker that has observed nothing.
    pub fn new() -> (r: Self)
        ensures
            r.wf(),
            r@ == unobserved::<T>(),
    {
        let n = T::count();
        let mut slots: Vec<AccessTracker<T::Output>> = Vec::new();
        let mut k: usize = 0;
        while k < n
            invariant
                n as nat == T::accessor_count(),
                k <= n,
                slots@.len() == k,
                forall|j: int| 0 <= j < k ==> (#[trigger] slots@[j])@ is None,
            decreases n - k,
        {
            slots.push(AccessTracker::new());
            k = k + 1;
        }
        let r = Tracker { slots };
        assert(r@ =~= unobserved::<T>());
        r
    }

    /// Whether accessor `i` was observed.
    pub fn is_observed(&self, i: usize) -> (r: bool)
        requires
            self.wf(),
            (i as nat) < T::accessor_count(),
        ensures
            r == self@[i as int] is Some,
    {
        self.slots[i].observed().is_some()
    }

    /// The output recorded for accessor `i`, if any.
    pub fn recorded(&self, i: usize) -> (r: Option<&T::Output>)
        requires
            self.wf(),
            (i as nat) < T::accessor_count(),
        ensures
            r == match self@[i as int] {
                Some(x) => Some(&x),
                None => None::<&T::Output>,
            },
    {
        self.slots[i].observed()
    }

    /// Records `output` as the result of accessor `i`.
    pub(crate) fn track(&mut self, i: usize, output: &T::Output)
        requires
            old(self).wf(),
            faithful::<T::Output>(),
            (i as nat) < T::accessor_count(),
            old(self)@[i as int] is None || old(self)@[i as int] == Some(*output),
        ensures
            final(self).wf(),
            final(self)@ == old(self)@.update(i as int, Some(*output)),
    {
        let mut slot = AccessTracker::new();
        std::mem::swap(&mut slot, &mut self.slots[i]);
        slot.track(output);
        self.slots.set(i, slot);
        assert(self@ =~= old(self)@.update(i as int, Some(*output)));
    }
}

/// Whether `value` agrees with every observation of `tracker`. The accessors
/// are consulted in declaration order, and the check stops at the first
/// disagreement.
pub fn valid<T: Trackable>(value: &T, tracker: &Tracker<T>) -> (r: bool)
    requires
        tracker.wf(),
        faithful::<T::Output>(),
    ensures
        r == admits(tracker@, *value),
{
    let n = T::count();
    let mut k: usize = 0;
    while k < n
        invariant
            n as nat == T::accessor_count(),
            tracker.wf(),
            faithful::<T::Output>(),
            k <= n,
            forall|j: int| 0 <= j < k ==> admits_output(#[trigger] tracker@[j], value.accessor(j)),
        decreases n - k,
    {
        let current = value.call(k);
        assert(tracker@[k as int] == tracker.slots@[k as int]@);
        if !tracker.slots[k].valid(&current) {
            assert(!admits_output(tracker@[k as int], value.accessor(k as int)));
            return false;
        }
        k = k + 1;
    }
    true
}

} // verus!
