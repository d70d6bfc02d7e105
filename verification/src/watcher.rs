//! Change-tracked observations: a watcher holds the previous and current value
//! of one tracked quantity, shifted once per tick.

use vstd::prelude::*;

verus! {

/// The values a watcher holds once it has been updated at least once. The
/// previous value stays absent until the second update.
pub struct Pair<T> {
    pub old: Option<T>,
    pub current: T,
}

/// A change-tracked observation. `pair` is absent before the first update;
/// each update shifts the current value into `old` and installs the new
/// current value unconditionally.
pub struct Watcher<T> {
    pub pair: Option<Pair<T>>,
}

impl<T> Watcher<T> {
    /// The watcher as it stands after one more update with `value`.
    pub open spec fn spec_updated(self, value: T) -> Watcher<T> {
        Watcher {
            pair: Some(Pair {
                old: match self.pair {
                    Some(p) => Some(p.current),
                    None => None,
                },
                current: value,
            }),
        }
    }

    /// The current value, if the watcher has been updated at least once.
    pub open spec fn spec_current(self) -> Option<T> {
        match self.pair {
            Some(p) => Some(p.current),
            None => None,
        }
    }

    /// A watcher that has not observed anything yet.
    pub fn new() -> (w: Watcher<T>)
        ensures
            w.pair is None,
    {
        Watcher { pair: None }
    }
}

impl<T: Copy> Watcher<T> {
    /// Records one observation. Never fails: a failed upstream read must be
    /// mapped to a defined default by the caller beforehand.
    pub fn update_infallible(&mut self, value: T)
        ensures
            *final(self) == old(self).spec_updated(value),
    {
        let old_current = match &self.pair {
            Some(p) => Some(p.current),
            None => None,
        };
        self.pair = Some(Pair { old: old_current, current: value });
    }

    /// The current value, if any observation was recorded yet.
    pub fn current(&self) -> (r: Option<T>)
        ensures
            r == self.spec_current(),
    {
        match &self.pair {
            Some(p) => Some(p.current),
            None => None,
        }
    }

    /// The previous value; absent until the second update.
    pub fn previous(&self) -> (r: Option<T>)
        ensures
            r == (match self.pair {
                Some(p) => p.old,
                None => None::<T>,
            }),
    {
        match &self.pair {
            Some(p) => p.old,
            None => None,
        }
    }
}

/// Law: updates shift values one place. After updates with `v1`, `v2`, `v3` in
/// sequence, the watcher holds previous `v2` and current `v3`; after the first
/// update alone, only the current value is defined.
pub proof fn lemma_watcher_update_sequence<T>(v1: T, v2: T, v3: T)
    ensures
        ({
            let w1 = Watcher::<T> { pair: None }.spec_updated(v1);
            let w3 = w1.spec_updated(v2).spec_updated(v3);
            &&& w1.pair == Some(Pair::<T> { old: None, current: v1 })
            &&& w3.pair == Some(Pair::<T> { old: Some(v2), current: v3 })
        }),
{
}

} // verus!
