use termplay::playback::{Playback, Step};

const DELAY: u64 = 100_000_000; // 10 fps

#[test]
fn new_sets_the_period() {
    let p: Playback<u32> = Playback::new(10);
    assert_eq!(p.delay(), DELAY);
    let p: Playback<u32> = Playback::default();
    assert_eq!(p.delay(), 16_000_000);
    assert!(!p.is_paused() && !p.is_stopped());
    assert_eq!(p.current(), None);
}

#[test]
fn push_then_pop_empties() {
    let mut p: Playback<u32> = Playback::new(10);
    for i in 0..5 {
        p.push(i);
    }
    assert_eq!(p.current(), Some(&0));
    for _ in 0..5 {
        p.pop();
    }
    assert_eq!(p.current(), None);
    // popping past the end keeps the cursor at the end
    p.pop();
    p.push(9);
    assert_eq!(p.current(), Some(&9));
}

#[test]
fn pop_evicts_at_capacity() {
    let mut p: Playback<u32> = Playback::with_buf_size(3, 10);
    p.extend(vec![0, 1, 2, 3]);
    p.pop();
    assert_eq!(p.current(), Some(&1));
    // at capacity: the passed frame 0 is dropped, the cursor stays on 2 after the pop
    p.pop();
    assert_eq!(p.current(), Some(&2));
    p.jump(-5);
    assert_eq!(p.current(), Some(&1));
}

#[test]
fn jump_stays_in_the_buffer() {
    let mut p: Playback<u32> = Playback::new(10);
    p.extend(vec![10, 11, 12]);
    p.jump(2);
    assert_eq!(p.current(), Some(&12));
    p.jump(10);
    assert_eq!(p.current(), None);
    p.jump(-1);
    assert_eq!(p.current(), Some(&12));
    p.jump(isize::MIN);
    assert_eq!(p.current(), Some(&10));
    p.jump(isize::MAX);
    assert_eq!(p.current(), None);
}

#[test]
fn redraw_only_while_paused() {
    let mut p: Playback<u32> = Playback::new(10);
    p.push(1);
    p.redraw();
    assert_eq!(p.step(0), Step::Play);
    p.pause();
    assert_eq!(p.step(DELAY), Step::Wait);
    p.redraw();
    assert_eq!(p.step(2 * DELAY), Step::Redraw);
    assert_eq!(p.step(3 * DELAY), Step::Wait);
    assert_eq!(p.current(), Some(&1));
}

#[test]
fn pause_then_stop_delivers_nothing() {
    let mut p: Playback<u32> = Playback::new(10);
    p.extend(vec![1, 2]);
    p.redraw();
    p.pause();
    p.stop();
    assert!(p.is_stopped());
    assert_eq!(p.step(0), Step::Exit);
    assert_eq!(p.step(10 * DELAY), Step::Exit);
    assert_eq!(p.current(), Some(&1));
}

#[test]
fn three_frames_then_end_of_stream() {
    let mut p: Playback<u32> = Playback::new(10);
    p.extend(vec![1, 2, 3]);
    let mut shown = Vec::new();
    let mut t = 0;
    loop {
        let step = p.step(t);
        assert_eq!(step, Step::Play);
        let current = p.current().cloned();
        let none = current.is_none();
        if let Some(f) = current {
            shown.push(f);
        }
        if p.stream_ended(step, none) {
            break;
        }
        t += DELAY;
        assert!(t <= 10 * DELAY);
    }
    assert_eq!(shown, vec![1, 2, 3]);
    assert_eq!(t, 3 * DELAY);
}

#[test]
fn lag_drops_frames() {
    let mut p: Playback<u32> = Playback::new(10);
    p.extend(vec![1, 2, 3, 4, 5]);
    assert_eq!(p.step(0), Step::Play);
    assert_eq!(p.current(), Some(&1));
    // two and a half periods late: two frames dropped, half a period kept
    assert_eq!(p.step(5 * DELAY / 2), Step::Play);
    assert_eq!(p.current(), Some(&3));
    assert_eq!(p.step(3 * DELAY), Step::Play);
    assert_eq!(p.current(), Some(&4));
}

#[test]
fn resume_does_not_catch_up() {
    let mut p: Playback<u32> = Playback::new(10);
    p.extend(vec![1, 2, 3]);
    assert_eq!(p.step(0), Step::Play);
    p.pause();
    p.play();
    assert_eq!(p.step(50 * DELAY), Step::Play);
    assert_eq!(p.current(), Some(&1));
}

#[test]
fn handler_push_keeps_the_stream_open() {
    let mut p: Playback<u32> = Playback::new(10);
    assert_eq!(p.step(0), Step::Play);
    p.push(7);
    assert!(!p.stream_ended(Step::Play, true));
    assert!(!p.stream_ended(Step::Redraw, true));
}
