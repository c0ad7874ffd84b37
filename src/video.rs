//! Pacing for playing pre-rendered frames at a fixed rate: which frames to
//! skip when behind, and how long to sleep after each one.

use vstd::prelude::*;

verus! {

/// Nanoseconds in a second.
pub const NANOS_PER_SEC: i64 = 1_000_000_000;

/// `v`, or `i64::MIN` where it is below.
pub open spec fn floor_i64(v: int) -> int {
    if v < i64::MIN {
        i64::MIN as int
    } else {
        v
    }
}

/// The pacing state: the time one frame should take, and the lag (how far
/// playback is behind, as a value at most 0), in nanoseconds.
#[derive(Clone, Copy, Debug, PartialEq, Eq, Structural)]
pub struct FramePacer {
    pub optimal: i64,
    pub lag: i64,
}

impl FramePacer {
    /// The pacer keeps a positive frame time and a lag that is at most 0.
    pub open spec fn wf(&self) -> bool {
        0 < self.optimal && self.lag <= 0
    }

    /// A pacer for `rate` frames per second, not behind.
    pub fn new(rate: u8) -> (r: FramePacer)
        requires
            rate > 0,
        ensures
            r.wf(),
            r.optimal == (NANOS_PER_SEC as int) / (rate as int),
            r.lag == 0,
    {
        proof {
            assert((NANOS_PER_SEC as int) / (rate as int) > 0) by (nonlinear_arith)
                requires
                    0 < rate <= 255,
            ;
            assert((NANOS_PER_SEC as int) / (rate as int) <= NANOS_PER_SEC as int) by (nonlinear_arith)
                requires
                    0 < rate,
            ;
        }
        FramePacer { optimal: NANOS_PER_SEC / rate as i64, lag: 0 }
    }

    /// Whether to skip the next frame: playback is more than a frame behind.
    /// Skipping one frame makes up one frame time.
    pub fn skip_next(&mut self) -> (r: bool)
        requires
            old(self).wf(),
        ensures
            final(self).wf(),
            final(self).optimal == old(self).optimal,
            r == (old(self).lag < -old(self).optimal),
            final(self).lag == (if r {
                old(self).lag + old(self).optimal
            } else {
                old(self).lag as int
            }),
    {
        if self.lag < -self.optimal {
            self.lag = self.lag + self.optimal;
            true
        } else {
            false
        }
    }

    /// After a frame that took `elapsed` nanoseconds to show: the time to
    /// sleep, in nanoseconds. The remaining frame time, less the lag, is
    /// slept; when the frame took longer than that, the excess is added to
    /// the lag.
    pub fn after_frame(&mut self, elapsed: u64) -> (r: u64)
        requires
            old(self).wf(),
        ensures
            final(self).wf(),
            final(self).optimal == old(self).optimal,
            ({
                let sleep = old(self).optimal - elapsed + old(self).lag;
                &&& r == (if sleep > 0 {
                    sleep
                } else {
                    0
                })
                &&& final(self).lag == (if sleep < 0 {
                    floor_i64(sleep)
                } else {
                    0
                })
            }),
    {
        let sleep: i128 = self.optimal as i128 - elapsed as i128 + self.lag as i128;
        if sleep > 0 {
            self.lag = 0;
            sleep as u64
        } else if sleep == 0 {
            self.lag = 0;
            0
        } else {
            self.lag = if sleep < i64::MIN as i128 {
                i64::MIN
            } else {
                sleep as i64
            };
            0
        }
    }
}

/// The playback volume in percent after a step of 10 up or down, within
/// 0 to 100.
pub fn volume_step(volume: u8, up: bool) -> (r: u8)
    requires
        volume <= 100,
    ensures
        r == (if up {
            if volume + 10 < 100 {
                volume + 10
            } else {
                100
            }
        } else if volume > 10 {
            volume - 10
        } else {
            0
        }),
{
    if up {
        if volume + 10 < 100 {
            volume + 10
        } else {
            100
        }
    } else if volume > 10 {
        volume - 10
    } else {
        0
    }
}

} // verus!
