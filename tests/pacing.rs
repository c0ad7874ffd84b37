use termplay::preprocess::{missing_frame, DecoderStatus, MissingFrame};
use termplay::video::{volume_step, FramePacer};

#[test]
fn pacer_sleeps_the_rest_of_the_frame() {
    let mut p = FramePacer::new(10);
    assert_eq!(p.optimal, 100_000_000);
    assert!(!p.skip_next());
    assert_eq!(p.after_frame(30_000_000), 70_000_000);
    assert_eq!(p.lag, 0);
}

#[test]
fn pacer_skips_when_behind() {
    let mut p = FramePacer::new(10);
    // a frame that took 2.5 frame times leaves 1.5 frame times of lag
    assert_eq!(p.after_frame(250_000_000), 0);
    assert_eq!(p.lag, -150_000_000);
    assert!(p.skip_next());
    assert_eq!(p.lag, -50_000_000);
    assert!(!p.skip_next());
    // the lag is taken off the next sleep
    assert_eq!(p.after_frame(10_000_000), 40_000_000);
    assert_eq!(p.lag, 0);
}

#[test]
fn pacer_saturates() {
    let mut p = FramePacer::new(1);
    assert_eq!(p.after_frame(u64::MAX), 0);
    assert_eq!(p.lag, i64::MIN);
}

#[test]
fn volume_steps() {
    assert_eq!(volume_step(100, true), 100);
    assert_eq!(volume_step(95, true), 100);
    assert_eq!(volume_step(50, true), 60);
    assert_eq!(volume_step(5, false), 0);
    assert_eq!(volume_step(50, false), 40);
}

#[test]
fn missing_frames() {
    assert_eq!(missing_frame(0, DecoderStatus::Running), (MissingFrame::Retry, 1));
    assert_eq!(missing_frame(3, DecoderStatus::Running), (MissingFrame::GiveUp, 3));
    assert_eq!(missing_frame(2, DecoderStatus::Exited(true)), (MissingFrame::Done, 2));
    assert_eq!(missing_frame(0, DecoderStatus::Exited(false)), (MissingFrame::Failed, 0));
    assert_eq!(missing_frame(1, DecoderStatus::Unknown), (MissingFrame::Failed, 1));
}
