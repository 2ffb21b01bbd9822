use vstd::prelude::*;

use crate::internal::InternalSdkError;

verus! {

/// Nanoseconds in one second.
pub const NANOS_PER_SEC: u32 = 1_000_000_000;

/// A point in time, as whole seconds and the nanoseconds past them since a
/// fixed epoch.
#[derive(Debug, Clone, Copy, PartialEq, Eq)]
pub struct Timestamp {
    pub secs: u64,
    pub nanos: u32,
}

/// A non-negative length of time, as whole seconds and the nanoseconds past
/// them.
#[derive(Debug, Clone, Copy, PartialEq, Eq)]
pub struct TimeGap {
    pub secs: u64,
    pub nanos: u32,
}

impl Timestamp {
    pub open spec fn wf(self) -> bool {
        self.nanos < NANOS_PER_SEC
    }

    /// Nanoseconds since the epoch.
    pub open spec fn total_nanos(self) -> int {
        self.secs * NANOS_PER_SEC + self.nanos
    }
}

impl TimeGap {
    pub open spec fn wf(self) -> bool {
        self.nanos < NANOS_PER_SEC
    }

    /// Length of the gap in nanoseconds.
    pub open spec fn total_nanos(self) -> int {
        self.secs * NANOS_PER_SEC + self.nanos
    }
}

/// The gap from `earlier` up to `later`.
fn gap_between(later: Timestamp, earlier: Timestamp) -> (r: TimeGap)
    requires
        later.wf(),
        earlier.wf(),
        earlier.total_nanos() <= later.total_nanos(),
    ensures
        r.wf(),
        r.total_nanos() == later.total_nanos() - earlier.total_nanos(),
{
    if later.nanos >= earlier.nanos {
        TimeGap { secs: later.secs - earlier.secs, nanos: later.nanos - earlier.nanos }
    } else {
        TimeGap { secs: later.secs - earlier.secs - 1, nanos: later.nanos + NANOS_PER_SEC - earlier.nanos }
    }
}

/// Computes `to - from`. Where `from` lies after `to` the gap would be
/// negative: the result is then a `SystemTimeError` that holds how far
/// `from` lies after `to`.
pub fn duration_between(from: Timestamp, to: Timestamp) -> (r: Result<TimeGap, InternalSdkError>)
    requires
        from.wf(),
        to.wf(),
    ensures
        from.total_nanos() <= to.total_nanos() <==> r is Ok,
        r matches Ok(g) ==> g.wf() && g.total_nanos() == to.total_nanos() - from.total_nanos(),
        r matches Err(e) ==> e matches InternalSdkError::SystemTimeError(g) && g.wf()
            && g.total_nanos() == from.total_nanos() - to.total_nanos(),
{
    if from.secs < to.secs || (from.secs == to.secs && from.nanos <= to.nanos) {
        Ok(gap_between(to, from))
    } else {
        Err(InternalSdkError::SystemTimeError(gap_between(from, to)))
    }
}

} // verus!
