//! Spans of time, held as whole seconds and the nanoseconds beyond them.
use vstd::prelude::*;

verus! {

/// A span of time.
#[derive(Debug, Clone, Copy, PartialEq, Eq, Structural)]
pub struct Elapsed {
    pub seconds: u64,
    pub nanoseconds: u32,
}

impl Elapsed {
    /// The span in nanoseconds.
    pub open spec fn nanos(self) -> nat {
        (self.seconds * 1_000_000_000 + self.nanoseconds) as nat
    }

    /// The span in whole milliseconds.
    pub open spec fn millis(self) -> nat {
        self.nanos() / 1_000_000
    }

    /// The span in whole seconds.
    pub open spec fn secs(self) -> nat {
        self.nanos() / 1_000_000_000
    }

    /// The empty span.
    pub fn zero() -> (r: Elapsed)
        ensures
            r.nanos() == 0,
            r == (Elapsed { seconds: 0, nanoseconds: 0 }),
    {
        Elapsed { seconds: 0, nanoseconds: 0 }
    }

    /// A span of whole seconds.
    pub fn from_secs(seconds: u64) -> (r: Elapsed)
        ensures
            r.nanos() == seconds * 1_000_000_000,
            r == (Elapsed { seconds, nanoseconds: 0 }),
    {
        Elapsed { seconds, nanoseconds: 0 }
    }

    /// A span of whole milliseconds.
    pub fn from_millis(millis: u64) -> (r: Elapsed)
        ensures
            r.nanos() == millis * 1_000_000,
            r.nanoseconds < 1_000_000_000,
    {
        Elapsed { seconds: millis / 1000, nanoseconds: (millis % 1000) as u32 * 1_000_000 }
    }

    /// The span in nanoseconds.
    pub fn as_nanos(self) -> (r: u128)
        ensures
            r == self.nanos(),
            r < 0x1_0000_0000_0000_0000_0000_0000,
    {
        self.seconds as u128 * 1_000_000_000 + self.nanoseconds as u128
    }

    /// The span in whole milliseconds.
    pub fn as_millis(self) -> (r: u128)
        ensures
            r == self.millis(),
    {
        self.as_nanos() / 1_000_000
    }

    /// The span in whole seconds.
    pub fn as_secs(self) -> (r: u128)
        ensures
            r == self.secs(),
            r <= u64::MAX + 4,
    {
        self.as_nanos() / 1_000_000_000
    }

    /// The span without `other`, or the empty span where `other` is longer.
    pub fn saturating_sub(self, other: Elapsed) -> (r: Elapsed)
        ensures
            r.nanos() == if self.nanos() >= other.nanos() {
                self.nanos() - other.nanos()
            } else {
                0
            },
    {
        let a = self.as_nanos();
        let b = other.as_nanos();
        if a < b {
            return Elapsed::zero();
        }
        let rest = a - b;
        if rest / 1_000_000_000 > u64::MAX as u128 {
            let nanoseconds = rest - u64::MAX as u128 * 1_000_000_000;
            return Elapsed { seconds: u64::MAX, nanoseconds: nanoseconds as u32 };
        }
        Elapsed {
            seconds: (rest / 1_000_000_000) as u64,
            nanoseconds: (rest % 1_000_000_000) as u32,
        }
    }
}

} // verus!
