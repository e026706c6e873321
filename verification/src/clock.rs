//! Points in time.

use vstd::prelude::*;

verus! {

/// A point in time: whole seconds since the start of 1970, and nanoseconds on top of them.
#[derive(Clone, Copy, PartialEq, Eq, Structural, Debug, Hash)]
pub struct Moment {
    pub secs: i64,
    pub nanos: u32,
}

impl Moment {
    /// All of it in nanoseconds.
    pub open spec fn total(self) -> int {
        self.secs * 1_000_000_000 + self.nanos
    }

    /// How long after an earlier moment this one is, in nanoseconds; nothing if it is not after.
    pub open spec fn past(self, earlier: Moment) -> int {
        if self.total() > earlier.total() {
            self.total() - earlier.total()
        } else {
            0
        }
    }

    /// The whole seconds since the start of 1970; nothing before it.
    pub open spec fn epoch_secs(self) -> int {
        if self.total() > 0 {
            self.total() / 1_000_000_000
        } else {
            0
        }
    }

    fn in_nanos(self) -> (n: i128)
        ensures
            n == self.total(),
    {
        self.secs as i128 * 1_000_000_000 + self.nanos as i128
    }

    /// How long after an earlier moment this one is, in nanoseconds.
    pub fn since(self, earlier: Moment) -> (n: u128)
        ensures
            n == self.past(earlier),
    {
        let a: i128 = self.in_nanos();
        let b: i128 = earlier.in_nanos();
        if a > b {
            (a - b) as u128
        } else {
            0
        }
    }

    /// The whole seconds since the start of 1970.
    pub fn since_epoch(self) -> (n: u64)
        ensures
            n == self.epoch_secs(),
    {
        let a: i128 = self.in_nanos();
        if a > 0 {
            (a / 1_000_000_000) as u64
        } else {
            0
        }
    }
}

} // verus!
