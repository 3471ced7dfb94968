//! The recorder of a single accessor.
use vstd::laws_eq::obeys_concrete_eq;
use vstd::pervasive::strictly_cloned;
use vstd::prelude::*;

verus! {

/// Outputs whose `==` is equality and whose clone equals its source.
pub open spec fn faithful<R: PartialEq + Clone>() -> bool {
    &&& obeys_concrete_eq::<R>()
    &&& forall|a: R, b: R| #[trigger] strictly_cloned(a, b) ==> a == b
}

/// Whether an observation admits an accessor's current output: an accessor
/// that was never consulted admits everything.
pub open spec fn admits_output<R>(observed: Option<R>, current: R) -> bool {
    match observed {
        Some(recorded) => recorded == current,
        None => true,
    }
}

/// Remembers whether one accessor was called and, if so, what it returned.
pub struct AccessTracker<R> {
    observed: Option<R>,
}

impl<R> View for AccessTracker<R> {
    type V = Option<R>;

    closed spec fn view(&self) -> Option<R> {
        self.observed
    }
}

impl<R: PartialEq + Clone> AccessTracker<R> {
    /// A recorder that has observed nothing.
    pub fn new() -> (r: Self)
        ensures
            r@ is None,
    {
        AccessTracker { observed: None }
    }

    /// Records `output` as the accessor's result. Once an output is recorded
    /// it never changes, so a second record must bring the same output.
    pub fn track(&mut self, output: &R)
        requires
            faithful::<R>(),
            old(self)@ is None || old(self)@ == Some(*output),
        ensures
            final(self)@ == Some(*output),
    {
        if self.observed.is_none() {
            let copy = output.clone();
            assert(strictly_cloned(*output, copy));
            self.observed = Some(copy);
        }
    }

    /// Whether the accessor's current output `current` agrees with what was
    /// recorded; true when nothing was recorded.
    pub fn valid(&self, current: &R) -> (r: bool)
        requires
            faithful::<R>(),
        ensures
            r == admits_output(self@, *current),
    {
        match &self.observed {
            Some(recorded) => {
                proof {
                    reveal(obeys_concrete_eq);
                }
                recorded == current
            },
            None => true,
        }
    }

    /// The recorded output, if any.
    pub fn observed(&self) -> (r: Option<&R>)
        ensures
            r == match self@ {
                Some(x) => Some(&x),
                None => None::<&R>,
            },
    {
        match &self.observed {
            Some(x) => Some(x),
            None => None,
        }
    }
}

} // verus!
