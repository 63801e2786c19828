//! A watcher retains the two most recent readings of a single observed
//! quantity, so that per-tick rules can compare the previous value with the
//! current one.

use vstd::prelude::*;

verus! {

/// The two most recent readings of a watched quantity.
#[derive(Clone, Copy, PartialEq, Eq, Debug)]
pub struct Pair<T> {
    pub old: T,
    pub current: T,
}

impl<T: Copy> Pair<T> {
    /// True when the watched value differs between the two readings.
    pub open spec fn spec_changed(self) -> bool {
        self.old != self.current
    }

    /// True when the watched value moved away from `from` on this tick.
    pub open spec fn spec_changed_from(self, from: T) -> bool {
        self.old == from && self.current != from
    }

    /// True when the watched value moved from `from` to `to` on this tick.
    pub open spec fn spec_changed_from_to(self, from: T, to: T) -> bool {
        self.old == from && self.current == to
    }
}

/// A watched quantity: `pair` is `None` only before the first reading.
#[derive(Clone, Copy, Debug)]
pub struct Watcher<T> {
    pub pair: Option<Pair<T>>,
}

impl<T: Copy> Watcher<T> {
    /// A watcher that has not yet received any reading.
    pub fn new() -> (w: Watcher<T>)
        ensures
            w.pair is None,
    {
        Watcher { pair: None }
    }

    /// The pair that an update with reading `value` produces: the previous
    /// current value (or `value` itself on the first reading) becomes `old`.
    pub open spec fn shifted(self, value: T) -> Pair<T> {
        match self.pair {
            Some(p) => Pair { old: p.current, current: value },
            None => Pair { old: value, current: value },
        }
    }

    /// The watcher that an update with the possibly-failed reading `value`
    /// produces: a present reading shifts the pair, an absent one leaves the
    /// watcher untouched.
    pub open spec fn spec_update(self, value: Option<T>) -> Watcher<T> {
        match value {
            Some(v) => Watcher { pair: Some(self.shifted(v)) },
            None => self,
        }
    }

    /// Feed one possibly-failed reading. A successful reading shifts the
    /// current value into `old` and stores the new one; a failed reading
    /// leaves the last good pair untouched.
    pub fn update(&mut self, value: Option<T>)
        ensures
            *final(self) == old(self).spec_update(value),
    {
        if let Some(v) = value {
            self.update_infallible(v);
        }
    }

    /// Feed one reading that is known to be present (e.g. a defaulted value
    /// when the wrong program image is detected).
    pub fn update_infallible(&mut self, value: T)
        ensures
            *final(self) == old(self).spec_update(Some(value)),
    {
        let shifted = match &self.pair {
            Some(p) => Pair { old: p.current, current: value },
            None => Pair { old: value, current: value },
        };
        self.pair = Some(shifted);
    }
}

} // verus!
