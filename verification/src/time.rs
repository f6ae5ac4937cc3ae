//! Wall-clock instants as plain numbers.

use vstd::prelude::*;

verus! {

/// Nanoseconds in one second.
pub const NANOS_PER_SEC: u128 = 1_000_000_000;

/// An instant of the wall clock: nanoseconds since the Unix epoch.
#[derive(Clone, Copy, Debug, PartialEq, Eq, Structural)]
pub struct Timestamp {
    pub nanos: u128,
}

impl Timestamp {
    /// The instant `secs` seconds after `self`, or the last instant that
    /// can be told if there is none that late.
    pub open spec fn plus_secs(self, secs: u64) -> Timestamp {
        if self.nanos + secs * NANOS_PER_SEC <= u128::MAX {
            Timestamp { nanos: (self.nanos + secs * NANOS_PER_SEC) as u128 }
        } else {
            Timestamp { nanos: u128::MAX }
        }
    }

    /// Whole seconds from `earlier` to `self`; none if `earlier` is in
    /// fact the later of the two.
    pub open spec fn whole_secs_since(self, earlier: Timestamp) -> Option<nat> {
        if earlier.nanos <= self.nanos {
            Some(((self.nanos - earlier.nanos) / NANOS_PER_SEC as int) as nat)
        } else {
            None
        }
    }

    /// Whether `self` is `deadline` or later.
    pub open spec fn reached(self, deadline: Timestamp) -> bool {
        self.nanos >= deadline.nanos
    }

    /// The instant `secs` seconds after `self`, saturating at the last
    /// instant that can be told.
    pub fn after_secs(self, secs: u64) -> (t: Timestamp)
        ensures
            t == self.plus_secs(secs),
    {
        let span: u128 = (secs as u128) * NANOS_PER_SEC;
        Timestamp { nanos: self.nanos.saturating_add(span) }
    }

    /// Whole seconds elapsed since `earlier`, or `None` if the clock went
    /// backwards between the two.
    pub fn secs_since(self, earlier: Timestamp) -> (secs: Option<u128>)
        ensures
            match secs {
                Some(n) => self.whole_secs_since(earlier) == Some(n as nat),
                None => self.whole_secs_since(earlier) is None,
            },
    {
        if earlier.nanos <= self.nanos {
            Some((self.nanos - earlier.nanos) / NANOS_PER_SEC)
        } else {
            None
        }
    }

    /// Whether `self` is `deadline` or later.
    pub fn has_reached(self, deadline: Timestamp) -> (yes: bool)
        ensures
            yes == self.reached(deadline),
    {
        self.nanos >= deadline.nanos
    }
}

} // verus!
