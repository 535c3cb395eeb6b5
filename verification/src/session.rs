//! One playback session: the state machine that orchestrates pacing,
//! rendering and terminal restoration, with guaranteed cursor restoration on
//! every exit path.
use vstd::prelude::*;
use vstd::string::StringExecFns;
use crate::encode::{
    clear_screen_codes, cursor_home_codes, hide_cursor_codes, reset_codes, show_cursor_codes,
};
use crate::pacer::{PlaybackClock, Progress};

verus! {

/// Where a session stands: not yet started, playing, ran to completion, or
/// stopped by a cancellation request.
#[derive(Clone, Copy, PartialEq, Eq, Structural, Debug)]
pub enum SessionState {
    Idle,
    Running,
    Finished,
    Cancelled,
}

/// One playback session: its clock, the stream length if known (zero for
/// unknown), the loop, sync and audio flags, its state, and whether the
/// terminal cursor is currently hidden on its behalf.
///
/// The driving loop performs the writes and sleeps; the session decides them.
/// Each method returns the exact escape text to write, so that every exit
/// path—normal completion or cancellation—restores the cursor.
pub struct PlaybackSession {
    pub clock: PlaybackClock,
    pub total_frames: u64,
    pub looping: bool,
    pub sync: bool,
    pub audio: bool,
    pub state: SessionState,
    pub cursor_hidden: bool,
}

impl PlaybackSession {
    /// The clock is well formed; the cursor is hidden exactly while the
    /// session runs, and never left hidden once it has terminated.
    pub open spec fn wf(self) -> bool {
        &&& self.clock.wf()
        &&& (self.state is Running ==> self.cursor_hidden)
        &&& (self.state is Finished || self.state is Cancelled ==> !self.cursor_hidden)
    }

    /// A new, not yet started session.
    pub fn new(spf_nanos: u64, total_frames: u64, looping: bool, sync: bool, audio: bool) -> (s:
        PlaybackSession)
        ensures
            s.wf(),
            s.state is Idle,
            !s.cursor_hidden,
            s.clock == (PlaybackClock { spf_nanos, frameskip: 1, frame: 0 }),
            s.total_frames == total_frames,
            s.looping == looping,
            s.sync == sync,
            s.audio == audio,
    {
        PlaybackSession {
            clock: PlaybackClock::new(spf_nanos),
            total_frames,
            looping,
            sync,
            audio,
            state: SessionState::Idle,
            cursor_hidden: false,
        }
    }

    /// Start playing. The returned prologue clears the screen, moves the
    /// cursor home and hides it; it must be written (and flushed) before the
    /// first frame.
    pub fn begin(&mut self) -> (prologue: String)
        requires
            old(self).wf(),
            old(self).state is Idle,
        ensures
            final(self).wf(),
            final(self).state is Running,
            final(self).cursor_hidden,
            final(self).clock == old(self).clock,
            final(self).total_frames == old(self).total_frames,
            final(self).looping == old(self).looping,
            final(self).sync == old(self).sync,
            final(self).audio == old(self).audio,
            prologue@ == clear_screen_codes() + cursor_home_codes() + hide_cursor_codes(),
    {
        self.state = SessionState::Running;
        self.cursor_hidden = true;
        let mut prologue = "\u{1b}[2J".to_owned();
        prologue.append("\u{1b}[H");
        prologue.append("\u{1b}[?25l");
        proof {
            assert(prologue@ =~= clear_screen_codes() + cursor_home_codes()
                + hide_cursor_codes());
        }
        prologue
    }

    /// Account for one rendered frame; see `PlaybackClock::tick`. The session
    /// stays running; only the clock moves.
    pub fn tick(&mut self, elapsed_nanos: u64) -> (sleep: Option<u64>)
        requires
            old(self).wf(),
            old(self).state is Running,
            old(self).clock.frameskip < u32::MAX,
            old(self).clock.frame + old(self).clock.frameskip + 1 <= u64::MAX,
        ensures
            final(self).wf(),
            final(self).state is Running,
            final(self).cursor_hidden == old(self).cursor_hidden,
            final(self).total_frames == old(self).total_frames,
            final(self).looping == old(self).looping,
            final(self).sync == old(self).sync,
            final(self).audio == old(self).audio,
            final(self).clock.wf(),
            final(self).clock.spf_nanos == old(self).clock.spf_nanos,
            final(self).clock.frameskip >= old(self).clock.frameskip,
            final(self).clock.frame == old(self).clock.frame + final(self).clock.frameskip,
            old(self).sync && old(self).clock.sat_budget() > elapsed_nanos ==> sleep == Some(
                (old(self).clock.sat_budget() - elapsed_nanos) as u64,
            ) && final(self).clock.frameskip == old(self).clock.frameskip,
            old(self).sync && old(self).clock.sat_budget() <= elapsed_nanos ==> sleep is None
                && final(self).clock.frameskip == old(self).clock.frameskip + 1,
            !old(self).sync ==> sleep is None && final(self).clock.frameskip == old(self).clock.frameskip,
    {
        let sync = self.sync;
        self.clock.tick(elapsed_nanos, sync)
    }

    /// After a tick, decide from the logical frame position whether to go on,
    /// rewind the source, or finish; see `PlaybackClock::check_position`.
    pub fn advance(&mut self) -> (p: Progress)
        requires
            old(self).wf(),
            old(self).state is Running,
        ensures
            final(self).wf(),
            final(self).state is Running,
            final(self).cursor_hidden == old(self).cursor_hidden,
            final(self).total_frames == old(self).total_frames,
            final(self).looping == old(self).looping,
            final(self).sync == old(self).sync,
            final(self).audio == old(self).audio,
            final(self).clock.spf_nanos == old(self).clock.spf_nanos,
            final(self).clock.frameskip == old(self).clock.frameskip,
            old(self).total_frames > 0 && old(self).clock.frame >= old(self).total_frames && old(self).looping ==> p == Progress::Restart && final(self).clock.frame == 0,
            old(self).total_frames > 0 && old(self).clock.frame >= old(self).total_frames && !old(self).looping ==> p == Progress::Finish && final(self).clock.frame == old(self).clock.frame,
            !(old(self).total_frames > 0 && old(self).clock.frame >= old(self).total_frames) ==> p
                == Progress::Continue && final(self).clock.frame == old(self).clock.frame,
    {
        let total = self.total_frames;
        let looping = self.looping;
        self.clock.check_position(total, looping)
    }

    /// The source ran out of frames: rewind when looping, else finish; see
    /// `PlaybackClock::on_stream_end`.
    pub fn stream_ended(&mut self) -> (p: Progress)
        requires
            old(self).wf(),
            old(self).state is Running,
        ensures
            final(self).wf(),
            final(self).state is Running,
            final(self).cursor_hidden == old(self).cursor_hidden,
            final(self).total_frames == old(self).total_frames,
            final(self).looping == old(self).looping,
            final(self).sync == old(self).sync,
            final(self).audio == old(self).audio,
            final(self).clock.spf_nanos == old(self).clock.spf_nanos,
            final(self).clock.frameskip == old(self).clock.frameskip,
            old(self).looping ==> p == Progress::Restart && final(self).clock.frame == 0,
            !old(self).looping ==> p == Progress::Finish && final(self).clock.frame == old(self).clock.frame,
    {
        let looping = self.looping;
        self.clock.on_stream_end(looping)
    }

    /// Normal completion. The returned epilogue clears the screen and shows
    /// the cursor again; it must be written on this exit path.
    pub fn finish(&mut self) -> (epilogue: String)
        requires
            old(self).wf(),
            old(self).state is Running,
        ensures
            final(self).wf(),
            final(self).state is Finished,
            !final(self).cursor_hidden,
            final(self).clock == old(self).clock,
            epilogue@ == clear_screen_codes() + show_cursor_codes(),
    {
        self.state = SessionState::Finished;
        self.cursor_hidden = false;
        let mut epilogue = "\u{1b}[2J".to_owned();
        epilogue.append("\u{1b}[?25h");
        proof {
            assert(epilogue@ =~= clear_screen_codes() + show_cursor_codes());
        }
        epilogue
    }

    /// A cancellation request was observed between ticks. The returned
    /// epilogue clears the screen, re-homes the cursor, shows it and resets
    /// all attributes, so no hidden-cursor escape is left unterminated
    /// whichever tick was interrupted.
    pub fn cancel(&mut self) -> (epilogue: String)
        requires
            old(self).wf(),
            old(self).state is Idle || old(self).state is Running,
        ensures
            final(self).wf(),
            final(self).state is Cancelled,
            !final(self).cursor_hidden,
            final(self).clock == old(self).clock,
            epilogue@ == clear_screen_codes() + cursor_home_codes() + show_cursor_codes()
                + reset_codes(),
    {
        self.state = SessionState::Cancelled;
        self.cursor_hidden = false;
        let mut epilogue = "\u{1b}[2J".to_owned();
        epilogue.append("\u{1b}[H");
        epilogue.append("\u{1b}[?25h");
        epilogue.append("\u{1b}[0m");
        proof {
            assert(epilogue@ =~= clear_screen_codes() + cursor_home_codes()
                + show_cursor_codes() + reset_codes());
        }
        epilogue
    }
}

/// Law: a terminated session—finished or cancelled, whichever tick was
/// interrupted—never leaves the cursor hidden.
pub proof fn lemma_terminated_cursor_visible(s: PlaybackSession)
    requires
        s.wf(),
        s.state is Finished || s.state is Cancelled,
    ensures
        !s.cursor_hidden,
{
}

} // verus!
