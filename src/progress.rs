use vstd::prelude::*;
use crate::run::{Mode, RunState};

verus! {

/// What the progress reporter shows after a candidate completes.
#[derive(Clone, Copy, Debug, PartialEq, Eq, Structural)]
pub struct Progress {
    pub files_processed: u64,
    pub files_total: u64,
    /// Whole percent of the candidates completed; zero for an empty run.
    pub percent: u64,
    pub hours: u64,
    pub minutes: u64,
    pub seconds: u64,
    /// Seed detections that succeeded, where the mode runs them.
    pub found: Option<u64>,
    /// Cracks that succeeded, where the mode runs them.
    pub cracked: Option<u64>,
}

/// The mode runs seed detection.
pub open spec fn detects(mode: Mode) -> bool {
    mode == Mode::Detect || mode == Mode::DetectThenCrack
}

/// The mode runs cracking.
pub open spec fn cracks(mode: Mode) -> bool {
    mode == Mode::Crack || mode == Mode::DetectThenCrack
}

/// Whole percent of `total` that `done` makes, rounded down; zero when
/// `total` is zero.
pub open spec fn percent_spec(done: u64, total: u64) -> int {
    if total == 0 { 0 } else { (100 * done as int) / (total as int) }
}

/// Whole percent of `total` that `done` makes, rounded down; zero when
/// `total` is zero.
pub fn percent(done: u64, total: u64) -> (r: u64)
    requires
        done <= total,
    ensures
        r == percent_spec(done, total),
        r <= 100,
{
    if total == 0 {
        return 0;
    }
    let r = (done as u128) * 100 / (total as u128);
    proof {
        let d = done as int;
        let t = total as int;
        assert(100 * d <= 100 * t) by (nonlinear_arith) requires d <= t;
        assert((100 * d) / t <= (100 * t) / t) by (nonlinear_arith) requires 100 * d <= 100 * t, t > 0;
        assert((100 * t) / t == 100) by (nonlinear_arith) requires t > 0;
    }
    r as u64
}

/// Splits a number of seconds into hours, minutes and seconds.
pub fn clock(secs: u64) -> (r: (u64, u64, u64))
    ensures
        r.0 == secs / 3600,
        r.1 == (secs % 3600) / 60,
        r.2 == secs % 60,
        r.1 < 60,
        r.2 < 60,
{
    (secs / 3600, secs % 3600 / 60, secs % 60)
}

/// Whether the mode runs seed detection.
pub fn mode_detects(mode: Mode) -> (r: bool)
    ensures
        r == detects(mode),
{
    match mode {
        Mode::Detect | Mode::DetectThenCrack => true,
        Mode::Crack => false,
    }
}

/// Whether the mode runs cracking.
pub fn mode_cracks(mode: Mode) -> (r: bool)
    ensures
        r == cracks(mode),
{
    match mode {
        Mode::Crack | Mode::DetectThenCrack => true,
        Mode::Detect => false,
    }
}

impl RunState {
    /// The progress to show `elapsed` seconds into the run.
    pub fn progress(&self, elapsed: u64) -> (p: Progress)
        requires
            self.wf(),
        ensures
            p.files_processed == self.files_processed,
            p.files_total == self.files_total,
            p.percent == percent_spec(self.files_processed, self.files_total),
            p.hours == elapsed / 3600,
            p.minutes == (elapsed % 3600) / 60,
            p.seconds == elapsed % 60,
            p.found == if detects(self.mode) { Some(self.files_found) } else { None::<u64> },
            p.cracked == if cracks(self.mode) { Some(self.files_cracked) } else { None::<u64> },
    {
        let (hours, minutes, seconds) = clock(elapsed);
        Progress {
            files_processed: self.files_processed,
            files_total: self.files_total,
            percent: percent(self.files_processed, self.files_total),
            hours,
            minutes,
            seconds,
            found: if mode_detects(self.mode) { Some(self.files_found) } else { None },
            cracked: if mode_cracks(self.mode) { Some(self.files_cracked) } else { None },
        }
    }
}

} // verus!
