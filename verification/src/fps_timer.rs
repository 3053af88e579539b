use vstd::prelude::*;

use std::time::{Duration, Instant};

verus! {

#[verifier::external_type_specification]
#[verifier::external_body]
pub struct ExInstant(Instant);

/// `Instant::now`: the current time. Nothing is claimed of the value.
#[verifier::external_body]
fn instant_now() -> Instant {
    Instant::now()
}

/// `Instant::elapsed`: the time since `start`. Nothing is claimed of the value.
#[verifier::external_body]
fn instant_elapsed(start: &Instant) -> Duration {
    start.elapsed()
}

/// `Duration::as_millis`: the whole milliseconds of a duration. Nothing is
/// claimed of the value.
#[verifier::external_body]
fn duration_as_millis(d: &Duration) -> u128 {
    d.as_millis()
}

/// Counts frames over periods of a little more than a second and reports
/// the count of the last complete period.
pub struct FpsTimer {
    pub fps_period_start_time: Instant,
    pub fps: u32,
    pub elapsed_frames: u32,
}

impl FpsTimer {
    /// A timer whose first period starts now, with no frame counted.
    pub fn new() -> (r: FpsTimer)
        ensures
            r.fps == 0,
            r.elapsed_frames == 0,
    {
        FpsTimer { fps_period_start_time: instant_now(), fps: 0, elapsed_frames: 0 }
    }

    /// Counts a frame `elapsed_ms` milliseconds into the current period.
    /// Past 1000 ms the period is over: its frame count becomes the frame
    /// rate and counting starts again (`true` is returned).
    pub fn count_frame(&mut self, elapsed_ms: u32) -> (period_over: bool)
        requires
            old(self).elapsed_frames < u32::MAX,
        ensures
            period_over == (elapsed_ms > 1000),
            period_over ==> final(self).fps == old(self).elapsed_frames + 1 && final(self).elapsed_frames == 0,
            !period_over ==> final(self).fps == old(self).fps && final(self).elapsed_frames
                == old(self).elapsed_frames + 1,
            final(self).fps_period_start_time == old(self).fps_period_start_time,
    {
        self.elapsed_frames = self.elapsed_frames + 1;
        if elapsed_ms > 1000 {
            self.fps = self.elapsed_frames;
            self.elapsed_frames = 0;
            true
        } else {
            false
        }
    }

    /// Counts a frame and returns the frame rate of the last complete
    /// period; when the current period has lasted more than a second, it
    /// becomes the last complete one and a new period starts now. Otherwise
    /// the period goes on: its start stays and only the count grows. Which
    /// of the two happens depends on the clock, and is not stated.
    pub fn calculate(&mut self) -> (r: u32)
        requires
            old(self).elapsed_frames < u32::MAX,
        ensures
            r == final(self).fps,
            (final(self).fps == old(self).elapsed_frames + 1 && final(self).elapsed_frames == 0) || (
            final(self).fps == old(self).fps && final(self).elapsed_frames == old(self).elapsed_frames
                + 1 && final(self).fps_period_start_time == old(self).fps_period_start_time),
    {
        let elapsed = duration_as_millis(&instant_elapsed(&self.fps_period_start_time)) as u32;
        if self.count_frame(elapsed) {
            self.fps_period_start_time = instant_now();
        }
        self.fps
    }
}

} // verus!
