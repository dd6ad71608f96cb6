//! Run statistics: the aggregate counters summarizing one orchestration
//! run, and the elapsed-time arithmetic for the summary.

use vstd::prelude::*;

verus! {

/// Aggregate counters for one run. Updated exactly once per step, after the
/// step's terminal state is known; at run end the completed, skipped and
/// failed tallies add up to the total.
#[derive(Debug, Clone, Copy, PartialEq, Eq, Structural)]
pub struct UpdateStats {
    pub total_steps: usize,
    pub completed_steps: usize,
    pub skipped_steps: usize,
    pub failed_steps: usize,
    /// The local clock's reading when the run began, in milliseconds.
    pub started_at_millis: i64,
}

/// Relies on `chrono::Local::now` and `chrono::DateTime::timestamp_millis`
/// for the local clock's reading in milliseconds. The value is the
/// machine's clock: nothing is promised of it.
#[verifier::external_body]
fn now_millis() -> i64 {
    chrono::Local::now().timestamp_millis()
}

/// Milliseconds elapsed from the reading `start` to the reading `now`; a
/// clock that moved backwards counts as no time passed.
pub open spec fn elapsed_spec(start: i64, now: i64) -> int {
    if now >= start {
        now - start
    } else {
        0
    }
}

/// Elapsed milliseconds between two clock readings, exactly as
/// [`elapsed_spec`] states.
pub fn elapsed_millis(start: i64, now: i64) -> (ms: u64)
    ensures
        ms == elapsed_spec(start, now),
{
    if now >= start {
        let wide: i128 = (now as i128) - (start as i128);
        proof {
            assert(0 <= wide <= u64::MAX);
        }
        wide as u64
    } else {
        0
    }
}

/// Split a duration in milliseconds into the whole minutes and the leftover
/// seconds shown in the run summary.
pub fn minutes_seconds(ms: u64) -> (r: (u64, u64))
    ensures
        r.0 == ms / 60000,
        r.1 == (ms / 1000) % 60,
{
    (ms / 60000, (ms / 1000) % 60)
}

impl UpdateStats {
    /// Fresh statistics for a run over `total_steps` steps: every tally
    /// zero, the start time taken from the local clock.
    pub fn new(total_steps: usize) -> (s: UpdateStats)
        ensures
            s.total_steps == total_steps,
            s.completed_steps == 0,
            s.skipped_steps == 0,
            s.failed_steps == 0,
    {
        UpdateStats {
            total_steps,
            completed_steps: 0,
            skipped_steps: 0,
            failed_steps: 0,
            started_at_millis: now_millis(),
        }
    }

    /// Milliseconds elapsed since the run began, by the local clock. The
    /// clock's reading is the machine's; only its combination with the
    /// start time, [`elapsed_spec`], is pinned down.
    pub fn duration(&self) -> u64 {
        elapsed_millis(self.started_at_millis, now_millis())
    }
}

} // verus!
