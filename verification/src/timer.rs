//! A deadline on the application's monotonic clock, counted in milliseconds
//! since the application started.
use vstd::prelude::*;

verus! {

/// A deadline that may be unset. An unset deadline has always passed.
#[derive(Clone, Copy, Debug, PartialEq, Eq, Structural)]
pub struct InstantCell {
    pub deadline: Option<i64>,
}

impl InstantCell {
    /// The deadline has passed at `now`.
    pub open spec fn has_elapsed(self, now: int) -> bool {
        match self.deadline {
            Some(t) => now >= t,
            None => true,
        }
    }

    /// The deadline has passed at `now`.
    pub fn elapsed(&self, now: i64) -> (r: bool)
        ensures
            r == self.has_elapsed(now as int),
    {
        match self.deadline {
            Some(t) => now >= t,
            None => true,
        }
    }

    /// Sets the deadline `duration_ms` after `now`.
    pub fn reset_after(&mut self, now: i64, duration_ms: u64)
        requires
            now + duration_ms <= i64::MAX,
        ensures
            final(self).deadline == Some((now + duration_ms) as i64),
    {
        self.deadline = Some((now as i128 + duration_ms as i128) as i64);
    }

    /// Clears the deadline, so that it has passed at once.
    pub fn reset_now(&mut self)
        ensures
            final(self).deadline is None,
    {
        self.deadline = None;
    }
}

impl Default for InstantCell {
    fn default() -> (r: Self)
        ensures
            r.deadline is None,
    {
        InstantCell { deadline: None }
    }
}

/// A cleared deadline has passed at every time.
pub proof fn law_reset_now_elapsed(now: int)
    ensures
        (InstantCell { deadline: None }).has_elapsed(now),
{
}

/// A deadline set `d` after `now` has passed exactly from `now + d` on.
pub proof fn law_reset_after_elapses_at_deadline(now: i64, d: u64, t: int)
    requires
        now + d <= i64::MAX,
    ensures
        (InstantCell { deadline: Some((now + d) as i64) }).has_elapsed(t) <==> t >= now + d,
{
}

} // verus!
