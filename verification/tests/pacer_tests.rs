//! Pacing and session behaviour on concrete timings.
use batimg::pacer::{spf_nanos_from_rate, PlaybackClock, Progress};
use batimg::session::{PlaybackSession, SessionState};

#[test]
fn quick_render_sleeps_the_remaining_budget() {
    // 25 fps: 0.04 s per frame; a 0.01 s render leaves a 0.03 s sleep.
    let mut clock = PlaybackClock::new(40_000_000);
    let sleep = clock.tick(10_000_000, true);
    assert_eq!(sleep, Some(30_000_000));
    assert_eq!(clock.frameskip, 1);
    assert_eq!(clock.frame, 1);
}

#[test]
fn slow_render_widens_the_skip_by_one_and_does_not_sleep() {
    let mut clock = PlaybackClock::new(40_000_000);
    let sleep = clock.tick(40_000_000, true);
    assert_eq!(sleep, None);
    assert_eq!(clock.frameskip, 2);
    assert_eq!(clock.frame, 2);
    // A second offending tick (budget now 0.08 s) widens it again.
    let sleep = clock.tick(95_000_000, true);
    assert_eq!(sleep, None);
    assert_eq!(clock.frameskip, 3);
    assert_eq!(clock.frame, 5);
    // A quick tick afterwards sleeps, and the skip never shrinks back.
    let sleep = clock.tick(20_000_000, true);
    assert_eq!(sleep, Some(100_000_000));
    assert_eq!(clock.frameskip, 3);
    assert_eq!(clock.frame, 8);
}

#[test]
fn without_sync_the_clock_never_sleeps_or_skips() {
    let mut clock = PlaybackClock::new(40_000_000);
    for _ in 0..5 {
        let sleep = clock.tick(999_000_000, false);
        assert_eq!(sleep, None);
    }
    assert_eq!(clock.frameskip, 1);
    assert_eq!(clock.frame, 5);
}

#[test]
fn position_check_restarts_or_finishes_at_the_end() {
    let mut clock = PlaybackClock::new(40_000_000);
    clock.frame = 9;
    assert_eq!(clock.check_position(10, false), Progress::Continue);
    clock.frame = 10;
    assert_eq!(clock.check_position(10, false), Progress::Finish);
    assert_eq!(clock.frame, 10);
    assert_eq!(clock.check_position(10, true), Progress::Restart);
    assert_eq!(clock.frame, 0);
    // Unknown length: never ends by position.
    clock.frame = 1_000_000;
    assert_eq!(clock.check_position(0, false), Progress::Continue);
}

#[test]
fn stream_end_restarts_only_when_looping() {
    let mut clock = PlaybackClock::new(40_000_000);
    clock.frame = 7;
    assert_eq!(clock.on_stream_end(true), Progress::Restart);
    assert_eq!(clock.frame, 0);
    clock.frame = 7;
    assert_eq!(clock.on_stream_end(false), Progress::Finish);
    assert_eq!(clock.frame, 7);
}

#[test]
fn seconds_per_frame_from_stream_rate() {
    assert_eq!(spf_nanos_from_rate(25, 1), 40_000_000);
    assert_eq!(spf_nanos_from_rate(30000, 1001), 33_366_666);
    assert_eq!(spf_nanos_from_rate(1, 1), 1_000_000_000);
}

#[test]
fn session_prologue_hides_and_epilogues_show_the_cursor() {
    let mut s = PlaybackSession::new(40_000_000, 100, false, true, false);
    assert_eq!(s.state, SessionState::Idle);
    assert!(!s.cursor_hidden);
    let prologue = s.begin();
    assert_eq!(prologue, "\x1b[2J\x1b[H\x1b[?25l");
    assert_eq!(s.state, SessionState::Running);
    assert!(s.cursor_hidden);
    let epilogue = s.finish();
    assert_eq!(epilogue, "\x1b[2J\x1b[?25h");
    assert_eq!(s.state, SessionState::Finished);
    assert!(!s.cursor_hidden);
}

#[test]
fn cancellation_mid_session_restores_the_cursor() {
    let mut s = PlaybackSession::new(40_000_000, 0, true, true, true);
    let _ = s.begin();
    let _ = s.tick(10_000_000);
    let epilogue = s.cancel();
    assert_eq!(s.state, SessionState::Cancelled);
    assert!(!s.cursor_hidden);
    assert!(epilogue.contains("\x1b[?25h"));
    assert_eq!(epilogue, "\x1b[2J\x1b[H\x1b[?25h\x1b[0m");
}

#[test]
fn session_drives_its_clock_and_loops() {
    let mut s = PlaybackSession::new(40_000_000, 2, true, true, false);
    let _ = s.begin();
    assert_eq!(s.tick(10_000_000), Some(30_000_000));
    assert_eq!(s.advance(), Progress::Continue);
    assert_eq!(s.tick(10_000_000), Some(30_000_000));
    assert_eq!(s.advance(), Progress::Restart);
    assert_eq!(s.clock.frame, 0);
    assert_eq!(s.stream_ended(), Progress::Restart);
    assert_eq!(s.state, SessionState::Running);
}
