use vstd::prelude::*;

verus! {

/// A point in time: whole seconds since the Unix epoch and the nanoseconds
/// added to them.
#[derive(Clone, Copy, Debug, PartialEq, Eq)]
pub struct Timestamp {
    pub secs: i64,
    pub nanos: u32,
}

pub const NANOS_PER_SECOND: i128 = 1_000_000_000;

impl Timestamp {
    /// The instant as a count of nanoseconds since the epoch.
    pub open spec fn as_nanos(&self) -> int {
        self.secs as int * 1_000_000_000 + self.nanos as int
    }

    pub fn new(secs: i64, nanos: u32) -> (r: Timestamp)
        ensures
            r.secs == secs,
            r.nanos == nanos,
    {
        Timestamp { secs, nanos }
    }

    /// The instant as a count of nanoseconds since the epoch.
    pub fn total_nanos(&self) -> (r: i128)
        ensures
            r as int == self.as_nanos(),
    {
        let s: i128 = self.secs as i128;
        assert(-0x8000_0000_0000_0000 <= s <= 0x7fff_ffff_ffff_ffff);
        assert(s * 1_000_000_000 <= 0x7fff_ffff_ffff_ffff * 1_000_000_000) by (nonlinear_arith)
            requires s <= 0x7fff_ffff_ffff_ffff;
        assert(s * 1_000_000_000 >= -0x8000_0000_0000_0000 * 1_000_000_000) by (nonlinear_arith)
            requires s >= -0x8000_0000_0000_0000;
        s * NANOS_PER_SECOND + self.nanos as i128
    }

    /// Whether this instant is the same as `other` or later.
    pub fn is_at_least(&self, other: &Timestamp) -> (r: bool)
        ensures
            r == (self.as_nanos() >= other.as_nanos()),
    {
        self.total_nanos() >= other.total_nanos()
    }
}

} // verus!
