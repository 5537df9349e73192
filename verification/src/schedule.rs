use vstd::prelude::*;

verus! {

/// The per-run configuration of the timer: the length of a work interval and
/// of a break interval, both in minutes, and how many full work+break cycles
/// remain. Only `repeats` ever changes after startup; it goes down by one
/// each time a break completes, and the run ends once it reaches zero.
#[derive(Clone, Copy, PartialEq, Eq, Structural, Debug)]
pub struct Opts {
    /// Length of a work interval, in minutes.
    pub work_time: u64,
    /// Length of a break interval, in minutes.
    pub break_time: u64,
    /// Remaining full work+break cycles.
    pub repeats: u64,
}

impl Opts {
    /// Both interval lengths convert to seconds without overflowing, so the
    /// countdown can always be reset to `work_time * 60` or `break_time * 60`.
    pub open spec fn wf(self) -> bool {
        &&& self.work_time * 60 <= u64::MAX
        &&& self.break_time * 60 <= u64::MAX
    }
}

/// Splits a total number of seconds into whole minutes and leftover seconds,
/// by integer division: no rounding, and the leftover part is below sixty.
pub fn seconds_to_minutes_seconds(total: u64) -> (r: (u64, u64))
    ensures
        r.0 == total as int / 60,
        r.1 == total as int % 60,
        r.0 * 60 + r.1 == total,
        r.1 < 60,
{
    (total / 60, total % 60)
}

} // verus!
