//! The frame pacer: the clock that keeps playback aligned with wall time and
//! widens the frame interval when rendering cannot keep up.
use vstd::prelude::*;

verus! {

/// What the pacer decides once the logical frame position is checked against
/// the stream: keep going, rewind the source and go on, or stop.
#[derive(Clone, Copy, PartialEq, Eq, Structural, Debug)]
pub enum Progress {
    Continue,
    Restart,
    Finish,
}

/// The playback clock: the nominal time budget per frame in nanoseconds, the
/// current frame-skip multiplier, and the logical frame position.
///
/// `frameskip` starts at one and only ever grows: once playback falls behind,
/// the spacing between pulled frames stays widened for the rest of the
/// session. This one-directional policy is deliberate; the pacer never drops
/// an already rendered frame and never narrows the interval again.
#[derive(Clone, Copy, PartialEq, Eq, Structural, Debug)]
pub struct PlaybackClock {
    pub spf_nanos: u64,
    pub frameskip: u32,
    pub frame: u64,
}

impl PlaybackClock {
    /// The skip multiplier is at least one.
    pub open spec fn wf(self) -> bool {
        self.frameskip >= 1
    }

    /// The nominal budget for one displayed frame: seconds-per-frame times
    /// the skip multiplier, saturated at the largest representable duration.
    pub open spec fn sat_budget(self) -> u64 {
        if self.spf_nanos * self.frameskip <= u64::MAX {
            (self.spf_nanos * self.frameskip) as u64
        } else {
            u64::MAX
        }
    }

    /// A fresh clock at frame zero with no skip.
    pub fn new(spf_nanos: u64) -> (c: PlaybackClock)
        ensures
            c == (PlaybackClock { spf_nanos, frameskip: 1, frame: 0 }),
            c.wf(),
    {
        PlaybackClock { spf_nanos, frameskip: 1, frame: 0 }
    }

    /// Account for one pulled, rendered and written frame that took
    /// `elapsed_nanos` of wall time, and decide how long to sleep before the
    /// next pull.
    ///
    /// With `sync` on: when the budget exceeds the elapsed time, the caller
    /// is told to sleep for the difference and the skip stays as it is; when
    /// the elapsed time has used the whole budget, there is no sleep and the
    /// skip grows by exactly one. That growth is the sole backpressure
    /// mechanism. With `sync` off the clock never sleeps and never skips.
    /// Either way the logical position advances by the (possibly just
    /// widened) skip.
    pub fn tick(&mut self, elapsed_nanos: u64, sync: bool) -> (sleep: Option<u64>)
        requires
            old(self).wf(),
            old(self).frameskip < u32::MAX,
            old(self).frame + old(self).frameskip + 1 <= u64::MAX,
        ensures
            final(self).wf(),
            final(self).spf_nanos == old(self).spf_nanos,
            final(self).frameskip >= old(self).frameskip,
            final(self).frame == old(self).frame + final(self).frameskip,
            sync && old(self).sat_budget() > elapsed_nanos ==> sleep == Some(
                (old(self).sat_budget() - elapsed_nanos) as u64,
            ) && final(self).frameskip == old(self).frameskip,
            sync && old(self).sat_budget() <= elapsed_nanos ==> sleep is None && final(self).frameskip == old(self).frameskip + 1,
            !sync ==> sleep is None && final(self).frameskip == old(self).frameskip,
    {
        let sleep: Option<u64> = if sync {
            let budget: u64 = match self.spf_nanos.checked_mul(self.frameskip as u64) {
                Some(b) => b,
                None => u64::MAX,
            };
            if budget > elapsed_nanos {
                Some(budget - elapsed_nanos)
            } else {
                self.frameskip = self.frameskip + 1;
                None
            }
        } else {
            None
        };
        self.frame = self.frame + self.frameskip as u64;
        sleep
    }

    /// After a tick, decide from the logical position whether playback goes
    /// on, rewinds to the start (when looping), or finishes. A zero
    /// `total_frames` means the length of the stream is unknown, and playback
    /// goes on until the source itself ends.
    pub fn check_position(&mut self, total_frames: u64, looping: bool) -> (p: Progress)
        ensures
            final(self).spf_nanos == old(self).spf_nanos,
            final(self).frameskip == old(self).frameskip,
            total_frames > 0 && old(self).frame >= total_frames && looping ==> p
                == Progress::Restart && final(self).frame == 0,
            total_frames > 0 && old(self).frame >= total_frames && !looping ==> p
                == Progress::Finish && final(self).frame == old(self).frame,
            !(total_frames > 0 && old(self).frame >= total_frames) ==> p == Progress::Continue
                && final(self).frame == old(self).frame,
    {
        if total_frames > 0 && self.frame >= total_frames {
            if looping {
                self.frame = 0;
                Progress::Restart
            } else {
                Progress::Finish
            }
        } else {
            Progress::Continue
        }
    }

    /// The source itself ran out of frames: rewind when looping, else finish.
    pub fn on_stream_end(&mut self, looping: bool) -> (p: Progress)
        ensures
            final(self).spf_nanos == old(self).spf_nanos,
            final(self).frameskip == old(self).frameskip,
            looping ==> p == Progress::Restart && final(self).frame == 0,
            !looping ==> p == Progress::Finish && final(self).frame == old(self).frame,
    {
        if looping {
            self.frame = 0;
            Progress::Restart
        } else {
            Progress::Finish
        }
    }
}

/// The nominal seconds-per-frame of a stream whose frame rate is the
/// fraction `num / den` frames per second, in whole nanoseconds, rounded
/// down.
pub fn spf_nanos_from_rate(num: u32, den: u32) -> (r: u64)
    requires
        num >= 1,
    ensures
        r == den as int * 1_000_000_000 / num as int,
{
    (den as u64 * 1_000_000_000) / (num as u64)
}

} // verus!
