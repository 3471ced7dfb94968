//! Recording sessions: the handle a computation reads its argument through,
//! sealed trackers, and the operations a memoizing cache calls.
use crate::access::{admits_output, faithful};
use crate::tracker::{admits, recording, unobserved, valid, Trackable, Tracker};
use vstd::prelude::*;

verus! {

/// A borrowed value together with the tracker of the recording session, if
/// one is active. Accessors are reached only through `get`, which records
/// each output while a session is active; the bare value is handed out only
/// when no session is.
pub struct TrackedRef<'a, T: Trackable> {
    value: &'a T,
    tracker: Option<Tracker<T>>,
}

impl<'a, T: Trackable> TrackedRef<'a, T> {
    /// The value read through this handle.
    pub closed spec fn target(&self) -> T {
        *self.value
    }

    /// What the active session has observed, or `None` outside a session.
    pub closed spec fn session(&self) -> Option<Seq<Option<T::Output>>> {
        match self.tracker {
            Some(t) => Some(t@),
            None => None,
        }
    }

    /// An active session has one observation per accessor, and each recorded
    /// output is what the value gives.
    pub open spec fn inv(&self) -> bool {
        match self.session() {
            Some(obs) => obs.len() == T::accessor_count() && admits(obs, self.target()),
            None => true,
        }
    }

    /// Whether a recording session is active.
    pub fn is_recording(&self) -> (r: bool)
        ensures
            r == self.session() is Some,
    {
        self.tracker.is_some()
    }

    /// Calls accessor `i` on the value. While a session is active the output
    /// is recorded for that accessor; otherwise nothing changes. Either way
    /// the result is the accessor's output on the value.
    pub fn get(&mut self, i: usize) -> (r: T::Output)
        requires
            old(self).inv(),
            faithful::<T::Output>(),
            (i as nat) < T::accessor_count(),
        ensures
            r == old(self).target().accessor(i as int),
            final(self).inv(),
            final(self).target() == old(self).target(),
            final(self).session() == match old(self).session() {
                Some(obs) => Some(obs.update(i as int, Some(r))),
                None => None,
            },
    {
        let output = self.value.call(i);
        match &mut self.tracker {
            Some(t) => {
                proof {
                    assert(admits_output_at(t@, *self.value, i as int));
                }
                t.track(i, &output);
                proof {
                    assert forall|j: int| 0 <= j < t@.len() implies admits_output(
                        #[trigger] t@[j],
                        self.value.accessor(j),
                    ) by {
                        if j != i {
                            assert(admits_output_at(old(self).session().unwrap(), *self.value, j));
                        }
                    }
                }
            },
            None => {},
        }
        output
    }

    /// The bare value, available only when no session is recording.
    pub fn bare(&self) -> (r: Option<&'a T>)
        ensures
            r == match self.session() {
                Some(_) => None::<&T>,
                None => Some(&self.target()),
            },
    {
        match &self.tracker {
            Some(_) => None,
            None => Some(self.value),
        }
    }

    /// Ends the handle and gives back the session's tracker, if any.
    pub fn finish(self) -> (r: Option<Tracker<T>>)
        requires
            self.inv(),
        ensures
            match r {
                Some(t) => t.wf() && self.session() == Some(t@),
                None => self.session() is None,
            },
    {
        self.tracker
    }
}

spec fn admits_output_at<T: Trackable>(obs: Seq<Option<T::Output>>, v: T, i: int) -> bool {
    admits_output(obs[i], v.accessor(i))
}

/// A finished tracker, stored beside a cached result. It can no longer be
/// recorded into; it is only checked against candidate values.
pub struct SealedTracker<T: Trackable> {
    tracker: Tracker<T>,
}

impl<T: Trackable> View for SealedTracker<T> {
    type V = Seq<Option<T::Output>>;

    closed spec fn view(&self) -> Seq<Option<T::Output>> {
        self.tracker@
    }
}

impl<T: Trackable> SealedTracker<T> {
    /// One observation per declared accessor.
    pub open spec fn wf(&self) -> bool {
        self@.len() == T::accessor_count()
    }

    /// Whether `candidate` agrees with every observation.
    pub fn valid(&self, candidate: &T) -> (r: bool)
        requires
            self.wf(),
            faithful::<T::Output>(),
        ensures
            r == admits(self@, *candidate),
    {
        valid(candidate, &self.tracker)
    }
}

/// Starts a recording session with a tracker that has observed nothing.
pub fn begin_recording<T: Trackable>() -> (r: Tracker<T>)
    ensures
        r.wf(),
        r@ == unobserved::<T>(),
{
    Tracker::new()
}

/// Makes a handle over `value`, recording into `tracker` when one is given.
/// A given tracker must already agree with the value.
pub fn wrap<'a, T: Trackable>(value: &'a T, tracker: Option<Tracker<T>>) -> (r: TrackedRef<'a, T>)
    requires
        match tracker {
            Some(t) => t.wf() && admits(t@, *value),
            None => true,
        },
    ensures
        r.inv(),
        r.target() == *value,
        r.session() == match tracker {
            Some(t) => Some(t@),
            None => None::<Seq<Option<T::Output>>>,
        },
{
    TrackedRef { value, tracker }
}

/// Freezes a finished tracker.
pub fn seal<T: Trackable>(tracker: Tracker<T>) -> (r: SealedTracker<T>)
    requires
        tracker.wf(),
    ensures
        r.wf(),
        r@ == tracker@,
{
    SealedTracker { tracker }
}

/// Whether a cached result recorded with `sealed` may be reused for
/// `candidate`: every accessor that was observed gives the same output.
pub fn is_valid<T: Trackable>(candidate: &T, sealed: &SealedTracker<T>) -> (r: bool)
    requires
        sealed.wf(),
        faithful::<T::Output>(),
    ensures
        r == admits(sealed@, *candidate),
{
    sealed.valid(candidate)
}

/// Runs a computation that calls the accessors `calls`, in order, on `value`
/// inside a fresh recording session, and returns the session's tracker.
pub fn record<T: Trackable>(value: &T, calls: &Vec<usize>) -> (r: Tracker<T>)
    requires
        faithful::<T::Output>(),
        forall|j: int| 0 <= j < calls@.len() ==> (#[trigger] calls@[j] as nat) < T::accessor_count(),
    ensures
        r.wf(),
        r@ == recording(*value, calls@),
{
    let tracker = begin_recording::<T>();
    proof {
        assert(admits(tracker@, *value));
        assert(recording(*value, calls@.take(0)) =~= unobserved::<T>());
    }
    let mut handle = wrap(value, Some(tracker));
    let mut k: usize = 0;
    while k < calls.len()
        invariant
            faithful::<T::Output>(),
            forall|j: int| 0 <= j < calls@.len() ==> (#[trigger] calls@[j] as nat) < T::accessor_count(),
            k <= calls@.len(),
            handle.inv(),
            handle.target() == *value,
            handle.session() == Some(recording(*value, calls@.take(k as int))),
        decreases calls@.len() - k,
    {
        let c = calls[k];
        let _ = handle.get(c);
        proof {
            let before = calls@.take(k as int).map_values(|c: usize| c as int);
            let after = calls@.take(k as int + 1).map_values(|c: usize| c as int);
            assert(after =~= before.push(c as int));
            assert forall|x: int| after.contains(x) <==> before.contains(x) || x == c as int by {
                if after.contains(x) {
                    let j = choose|j: int| 0 <= j < after.len() && after[j] == x;
                    if j < k {
                        assert(before[j] == x);
                    }
                }
                if before.contains(x) {
                    let j = choose|j: int| 0 <= j < before.len() && before[j] == x;
                    assert(after[j] == x);
                }
                if x == c as int {
                    assert(after[k as int] == x);
                }
            }
            assert(recording(*value, calls@.take(k as int + 1)) =~= recording(
                *value,
                calls@.take(k as int),
            ).update(
                c as int,
                Some(value.accessor(c as int)),
            ));
        }
        k = k + 1;
    }
    let r = handle.finish();
    proof {
        assert(calls@.take(calls@.len() as int) =~= calls@);
    }
    match r {
        Some(t) => t,
        None => {
            proof {
                assert(false);
            }
            begin_recording::<T>()
        },
    }
}

} // verus!
