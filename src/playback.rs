//! The frame buffer and the pacing of its playback.
//!
//! A `Playback` holds decoded frames in push order and a cursor on the frame
//! that is due. The run loop itself (the clock, sleeping, the lock shared with
//! a producer) lives with the caller; at each turn it calls `step` with the
//! current time, shows what `step` says, and asks `stream_ended` whether to
//! stop.

use vstd::arithmetic::div_mod::lemma_fundamental_div_mod_converse;
use vstd::prelude::*;
use std::collections::VecDeque;

verus! {

/// Nanoseconds in a millisecond.
pub const NANOS_PER_MILLI: u64 = 1_000_000;

/// What the run loop does at one turn.
#[derive(Clone, Copy, Debug, PartialEq, Eq, Structural)]
pub enum Step {
    /// The player is stopped: leave the loop.
    Exit,
    /// Playing: hand the current frame (or its absence) to the handler.
    Play,
    /// Paused with a redraw requested: hand the current frame over once.
    Redraw,
    /// Paused: hand nothing over.
    Wait,
}

/// The state of a `Playback`, as mathematical values. Times are in
/// nanoseconds.
pub struct PlaybackView<I> {
    pub frames: Seq<I>,
    pub cursor: nat,
    pub capacity: nat,
    pub stopped: bool,
    pub paused: bool,
    pub redraw: bool,
    pub delay: nat,
    pub lag: nat,
    pub last: Option<nat>,
}

/// The cursor stays within the buffer, and a frame lasts a positive time.
pub open spec fn view_wf<I>(v: PlaybackView<I>) -> bool {
    &&& v.cursor <= v.frames.len()
    &&& 0 < v.delay <= u64::MAX
    &&& v.lag <= u64::MAX
    &&& v.frames.len() <= usize::MAX
    &&& v.capacity <= usize::MAX
    &&& (v.last matches Some(t) ==> t <= u64::MAX)
}

/// Frames pushed but not yet passed: from the cursor to the end.
pub open spec fn pending<I>(v: PlaybackView<I>) -> nat {
    (v.frames.len() - v.cursor) as nat
}

/// How many frames `pop` drops from the front: only while the buffer is at
/// its capacity, and never the frame under the cursor or after it.
pub open spec fn evicted<I>(v: PlaybackView<I>) -> nat {
    if v.frames.len() >= v.capacity {
        if v.cursor < v.frames.len() - v.capacity + 1 {
            v.cursor
        } else {
            (v.frames.len() - v.capacity + 1) as nat
        }
    } else {
        0
    }
}

/// The state after passing one frame.
pub open spec fn pop_spec<I>(v: PlaybackView<I>) -> PlaybackView<I> {
    let e = evicted(v);
    PlaybackView {
        frames: v.frames.subrange(e as int, v.frames.len() as int),
        cursor: ((v.cursor - e) + (if v.cursor < v.frames.len() {
            1int
        } else {
            0int
        })) as nat,
        ..v
    }
}

/// The state after passing `k` frames.
pub open spec fn pops<I>(v: PlaybackView<I>, k: nat) -> PlaybackView<I>
    decreases k,
{
    if k == 0 {
        v
    } else {
        pop_spec(pops(v, (k - 1) as nat))
    }
}

pub open spec fn pause_spec<I>(v: PlaybackView<I>) -> PlaybackView<I> {
    PlaybackView { last: None, redraw: false, paused: true, ..v }
}

pub open spec fn play_spec<I>(v: PlaybackView<I>) -> PlaybackView<I> {
    PlaybackView { last: None, redraw: false, paused: false, ..v }
}

pub open spec fn stop_spec<I>(v: PlaybackView<I>) -> PlaybackView<I> {
    PlaybackView { stopped: true, ..v }
}

pub open spec fn redraw_spec<I>(v: PlaybackView<I>) -> PlaybackView<I> {
    PlaybackView { redraw: v.redraw || v.paused, ..v }
}

/// Time since the previous turn; none before the first turn after a start,
/// a pause or a resume.
pub open spec fn elapsed_since<I>(v: PlaybackView<I>, now: nat) -> nat {
    match v.last {
        Some(t) => if now >= t {
            (now - t) as nat
        } else {
            0
        },
        None => 0,
    }
}

/// Lag plus elapsed time, saturated at the largest `u64`.
pub open spec fn total_lag<I>(v: PlaybackView<I>, now: nat) -> nat {
    let s = v.lag + elapsed_since(v, now);
    if s <= u64::MAX {
        s
    } else {
        u64::MAX as nat
    }
}

/// One turn of the run loop at time `now`: the new state and what to do.
/// While playing, every whole frame period of lag drops one frame.
pub open spec fn step_spec<I>(v: PlaybackView<I>, now: nat) -> (PlaybackView<I>, Step) {
    if v.stopped {
        (v, Step::Exit)
    } else if !v.paused {
        let total = total_lag(v, now);
        let dropped = pops(PlaybackView { lag: total, ..v }, total / v.delay);
        (PlaybackView { lag: total % v.delay, last: Some(now), ..dropped }, Step::Play)
    } else if v.redraw {
        (PlaybackView { redraw: false, ..v }, Step::Redraw)
    } else {
        (v, Step::Wait)
    }
}

/// The end of the stream: a frame was due, none was there before the handler
/// ran, and none is there after it.
pub open spec fn ended_spec<I>(v: PlaybackView<I>, step: Step, delivered_none: bool) -> bool {
    step == Step::Play && delivered_none && v.cursor >= v.frames.len()
}

/// The state after a run loop's turns at the given times, in order.
pub open spec fn run_steps<I>(v: PlaybackView<I>, times: Seq<nat>) -> PlaybackView<I>
    decreases times.len(),
{
    if times.len() == 0 {
        v
    } else {
        step_spec(run_steps(v, times.drop_last()), times.last()).0
    }
}

/// Passing a frame keeps the cursor within the buffer, and takes one frame off
/// those pending, if any is.
pub proof fn lemma_pop_pending<I>(v: PlaybackView<I>)
    requires
        view_wf(v),
    ensures
        view_wf(pop_spec(v)),
        pending(pop_spec(v)) == (if pending(v) > 0 {
            pending(v) - 1
        } else {
            0
        }),
        pop_spec(v).delay == v.delay,
        pop_spec(v).stopped == v.stopped,
        pop_spec(v).paused == v.paused,
        pop_spec(v).last == v.last,
        pop_spec(v).lag == v.lag,
{
}

/// Passing `k` frames keeps the cursor within the buffer and takes up to `k`
/// frames off those pending; the rest of the state is kept.
pub proof fn lemma_pops_pending<I>(v: PlaybackView<I>, k: nat)
    requires
        view_wf(v),
    ensures
        view_wf(pops(v, k)),
        pending(pops(v, k)) == (if pending(v) > k {
            pending(v) - k
        } else {
            0
        }),
        pops(v, k).delay == v.delay,
        pops(v, k).stopped == v.stopped,
        pops(v, k).paused == v.paused,
        pops(v, k).last == v.last,
        pops(v, k).lag == v.lag,
    decreases k,
{
    if k > 0 {
        lemma_pops_pending(v, (k - 1) as nat);
        lemma_pop_pending(pops(v, (k - 1) as nat));
    }
}

/// Pushing `n` frames onto a buffer with nothing pending, then passing `n`
/// frames, leaves nothing pending; the cursor stays within the buffer.
pub proof fn lemma_push_then_pop_drains<I>(v: PlaybackView<I>, frames: Seq<I>)
    requires
        view_wf(v),
        pending(v) == 0,
        v.frames.len() + frames.len() <= usize::MAX,
    ensures
        ({
            let pushed = PlaybackView { frames: v.frames + frames, ..v };
            &&& view_wf(pops(pushed, frames.len()))
            &&& pending(pops(pushed, frames.len())) == 0
            &&& pops(pushed, frames.len()).cursor <= pops(pushed, frames.len()).frames.len()
        }),
{
    let pushed = PlaybackView { frames: v.frames + frames, ..v };
    assert(pending(pushed) == frames.len());
    lemma_pops_pending(pushed, frames.len());
}

/// Once paused and then stopped, the run loop leaves at its next turn and
/// hands nothing more over, whatever the time.
pub proof fn lemma_pause_then_stop_exits<I>(v: PlaybackView<I>, now: nat)
    requires
        view_wf(v),
    ensures
        step_spec(stop_spec(pause_spec(v)), now) == (stop_spec(pause_spec(v)), Step::Exit),
{
}

/// A turn keeps the state well formed; while playing, the turn plays, and if
/// at least one frame period passed since the previous turn, at least one
/// pending frame is passed.
pub proof fn lemma_step_advances<I>(v: PlaybackView<I>, now: nat)
    requires
        view_wf(v),
        now <= u64::MAX,
    ensures
        view_wf(step_spec(v, now).0),
        step_spec(v, now).0.delay == v.delay,
        !v.stopped && !v.paused ==> {
            let w = step_spec(v, now).0;
            &&& step_spec(v, now).1 == Step::Play
            &&& !w.stopped && !w.paused
            &&& w.last == Some(now)
            &&& pending(w) <= pending(v)
            &&& (v.last matches Some(t) && now >= t + v.delay) ==> (pending(w) == 0 || pending(w)
                < pending(v))
        },
{
    if !v.stopped && !v.paused {
        let total = total_lag(v, now);
        let k = total / v.delay;
        let start = PlaybackView { lag: total, ..v };
        lemma_pops_pending(start, k);
        assert(total % v.delay < v.delay);
        if v.last matches Some(t) && now >= t + v.delay {
            assert(total >= v.delay);
            assert(k >= 1) by (nonlinear_arith)
                requires
                    total >= v.delay,
                    v.delay > 0,
                    k == total / v.delay,
            ;
        }
    } else if !v.stopped && v.redraw {
    }
}

/// Turns spaced at least a frame period apart drain a playing buffer: after
/// one turn more than there are frames pending, none is pending, so a further
/// turn finds no frame, and without a new push the stream has ended.
pub proof fn lemma_run_drains<I>(v: PlaybackView<I>, times: Seq<nat>)
    requires
        view_wf(v),
        !v.stopped,
        !v.paused,
        times.len() >= 1,
        forall|i: int| 0 <= i < times.len() ==> #[trigger] times[i] <= u64::MAX,
        forall|i: int| 0 < i < times.len() ==> #[trigger] times[i] >= times[i - 1] + v.delay,
    ensures
        ({
            let w = run_steps(v, times);
            &&& view_wf(w)
            &&& !w.stopped && !w.paused
            &&& w.last == Some(times.last())
            &&& pending(w) <= (if pending(v) + 1 > times.len() {
                pending(v) + 1 - times.len()
            } else {
                0
            })
            &&& step_spec(run_steps(v, times.drop_last()), times.last()).1 == Step::Play
            &&& times.len() >= pending(v) + 1 ==> ended_spec(w, Step::Play, true)
        }),
    decreases times.len(),
{
    let prefix = times.drop_last();
    if times.len() == 1 {
        assert(run_steps(v, prefix) == v);
        lemma_step_advances(v, times.last());
    } else {
        assert forall|i: int| 0 <= i < prefix.len() implies #[trigger] prefix[i] <= u64::MAX by {
            assert(prefix[i] == times[i]);
        }
        assert forall|i: int| 0 < i < prefix.len() implies #[trigger] prefix[i] >= prefix[i - 1] + v.delay by {
            assert(prefix[i] == times[i]);
            assert(prefix[i - 1] == times[i - 1]);
        }
        lemma_run_drains(v, prefix);
        let u = run_steps(v, prefix);
        lemma_delay_kept(v, prefix);
        assert(times[times.len() - 1] >= times[times.len() - 2] + v.delay);
        assert(prefix.last() == times[times.len() - 2]);
        lemma_step_advances(u, times.last());
    }
}

/// Turns keep the frame period.
pub proof fn lemma_delay_kept<I>(v: PlaybackView<I>, times: Seq<nat>)
    requires
        view_wf(v),
        forall|i: int| 0 <= i < times.len() ==> #[trigger] times[i] <= u64::MAX,
    ensures
        view_wf(run_steps(v, times)),
        run_steps(v, times).delay == v.delay,
    decreases times.len(),
{
    if times.len() > 0 {
        let prefix = times.drop_last();
        assert forall|i: int| 0 <= i < prefix.len() implies #[trigger] prefix[i] <= u64::MAX by {
            assert(prefix[i] == times[i]);
        }
        lemma_delay_kept(v, prefix);
        lemma_step_advances(run_steps(v, prefix), times.last());
    }
}

/// `w` keeps the frames of `v` from some point on, and its cursor is on the
/// same frame as that of `v` or a later one, counted in push order.
pub open spec fn moves_forward<I>(v: PlaybackView<I>, w: PlaybackView<I>) -> bool {
    let dropped = v.frames.len() - w.frames.len();
    &&& 0 <= dropped <= v.frames.len()
    &&& w.frames == v.frames.subrange(dropped, v.frames.len() as int)
    &&& dropped + w.cursor >= v.cursor
}

proof fn lemma_moves_forward_trans<I>(u: PlaybackView<I>, v: PlaybackView<I>, w: PlaybackView<I>)
    requires
        moves_forward(u, v),
        moves_forward(v, w),
        v.cursor <= v.frames.len(),
    ensures
        moves_forward(u, w),
{
    let d1 = u.frames.len() - v.frames.len();
    let d2 = v.frames.len() - w.frames.len();
    assert(w.frames =~= u.frames.subrange(d1 + d2, u.frames.len() as int));
}

/// Passing frames never goes back: frames are shown in push order.
pub proof fn lemma_pops_move_forward<I>(v: PlaybackView<I>, k: nat)
    requires
        view_wf(v),
    ensures
        moves_forward(v, pops(v, k)),
    decreases k,
{
    if k == 0 {
        assert(v.frames.subrange(0, v.frames.len() as int) =~= v.frames);
    } else {
        let u = pops(v, (k - 1) as nat);
        lemma_pops_move_forward(v, (k - 1) as nat);
        lemma_pops_pending(v, (k - 1) as nat);
        lemma_moves_forward_trans(v, u, pop_spec(u));
    }
}

/// A turn of the run loop never moves the cursor back: the frames handed
/// over come in push order.
pub proof fn lemma_step_moves_forward<I>(v: PlaybackView<I>, now: nat)
    requires
        view_wf(v),
    ensures
        moves_forward(v, step_spec(v, now).0),
{
    if !v.stopped && !v.paused {
        let total = total_lag(v, now);
        lemma_pops_move_forward(PlaybackView { lag: total, ..v }, total / v.delay);
    } else {
        assert(v.frames.subrange(0, v.frames.len() as int) =~= v.frames);
    }
}

/// A convenience video player.
pub struct Playback<I> {
    buffer: VecDeque<I>,
    buffer_start: usize,
    max_buf_size: usize,
    stopped: bool,
    paused: bool,
    redraw: bool,
    delay: u64,
    lag: u64,
    last: Option<u64>,
}

impl<I> View for Playback<I> {
    type V = PlaybackView<I>;

    closed spec fn view(&self) -> PlaybackView<I> {
        PlaybackView {
            frames: self.buffer@,
            cursor: self.buffer_start as nat,
            capacity: self.max_buf_size as nat,
            stopped: self.stopped,
            paused: self.paused,
            redraw: self.redraw,
            delay: self.delay as nat,
            lag: self.lag as nat,
            last: match self.last {
                Some(t) => Some(t as nat),
                None => None,
            },
        }
    }
}

/// The frame period for `fps` frames per second, in nanoseconds.
pub open spec fn frame_delay(fps: u8) -> nat {
    ((1000int / (fps as int)) * (NANOS_PER_MILLI as int)) as nat
}

/// A fresh player: empty, at the given capacity and period.
pub open spec fn fresh<I>(v: PlaybackView<I>, capacity: nat, delay: nat) -> bool {
    &&& v.frames.len() == 0
    &&& v.cursor == 0
    &&& v.capacity == capacity
    &&& !v.stopped && !v.paused && !v.redraw
    &&& v.delay == delay
    &&& v.lag == 0
    &&& v.last is None
}

impl<I> Default for Playback<I> {
    /// An empty player at 60 frames per second, keeping up to 100 frames.
    fn default() -> (r: Self)
        ensures
            view_wf(r@),
            fresh(r@, 100, frame_delay(60)),
    {
        Playback::with_buf_size(100, 60)
    }
}

impl<I> Playback<I> {
    /// Create a new Playback with the specified FPS.
    pub fn new(fps: u8) -> (r: Self)
        requires
            fps > 0,
        ensures
            view_wf(r@),
            fresh(r@, 100, frame_delay(fps)),
    {
        Playback::with_buf_size(100, fps)
    }

    /// Create a new Playback with a custom buffer size limit.
    /// This limit is not strict.
    /// It may be ignored in certain cases to avoid playback issues.
    pub fn with_buf_size(max_buf_size: usize, fps: u8) -> (r: Self)
        requires
            fps > 0,
        ensures
            view_wf(r@),
            fresh(r@, max_buf_size as nat, frame_delay(fps)),
    {
        proof {
            assert(1000int / (fps as int) >= 3) by (nonlinear_arith)
                requires
                    0 < fps <= 255,
            ;
            assert(1000int / (fps as int) <= 1000) by (nonlinear_arith)
                requires
                    0 < fps,
            ;
        }
        let delay = (1000 / fps as u64) * NANOS_PER_MILLI;
        Playback {
            buffer: VecDeque::new(),
            buffer_start: 0,
            max_buf_size,
            stopped: false,
            paused: false,
            redraw: false,
            delay,
            lag: 0,
            last: None,
        }
    }

    /// Push a new frame to the buffer.
    pub fn push(&mut self, img: I)
        requires
            view_wf(old(self)@),
            old(self)@.frames.len() < usize::MAX,
        ensures
            view_wf(final(self)@),
            final(self)@ == (PlaybackView { frames: old(self)@.frames.push(img), ..old(self)@ }),
    {
        self.buffer.push_back(img);
        proof {
            assert(self@ =~= (PlaybackView { frames: old(self)@.frames.push(img), ..old(self)@ }));
        }
    }

    /// Push several frames, in order.
    pub fn extend(&mut self, frames: Vec<I>)
        requires
            view_wf(old(self)@),
            old(self)@.frames.len() + frames@.len() <= usize::MAX,
        ensures
            view_wf(final(self)@),
            final(self)@ == (PlaybackView { frames: old(self)@.frames + frames@, ..old(self)@ }),
    {
        let mut rest = frames;
        let ghost all = rest@;
        while rest.len() > 0
            invariant
                view_wf(self@),
                old(self)@.frames.len() + all.len() <= usize::MAX,
                all == self@.frames.subrange(old(self)@.frames.len() as int, self@.frames.len() as int) + rest@,
                self@ == (PlaybackView { frames: self@.frames, ..old(self)@ }),
                self@.frames.subrange(0, old(self)@.frames.len() as int) == old(self)@.frames,
                self@.frames.len() >= old(self)@.frames.len(),
            decreases rest@.len(),
        {
            let f = rest.remove(0);
            self.buffer.push_back(f);
            proof {
                assert(self@.frames.subrange(0, old(self)@.frames.len() as int) =~= old(self)@.frames);
                assert(all =~= self@.frames.subrange(old(self)@.frames.len() as int, self@.frames.len() as int) + rest@);
            }
        }
        proof {
            assert(self@.frames =~= old(self)@.frames + frames@);
        }
    }

    /// Mark a frame as passed and possibly clean up the buffer: while the
    /// buffer is at its capacity, frames before the cursor are dropped from
    /// the front. The cursor does not move past the last frame.
    pub fn pop(&mut self)
        requires
            view_wf(old(self)@),
        ensures
            view_wf(final(self)@),
            final(self)@ == pop_spec(old(self)@),
    {
        let ghost e = evicted(self@);
        let ghost len0 = self@.frames.len();
        while self.buffer.len() >= self.max_buf_size && self.buffer_start > 0
            invariant
                view_wf(self@),
                e == evicted(old(self)@),
                len0 == old(self)@.frames.len(),
                old(self)@.cursor - self@.cursor == len0 - self@.frames.len(),
                self@.cursor <= old(self)@.cursor,
                old(self)@.cursor - self@.cursor <= e,
                (old(self)@.cursor - self@.cursor < e) ==> (self@.frames.len() >= self@.capacity && self@.cursor > 0),
                self@.frames == old(self)@.frames.subrange(len0 - self@.frames.len(), len0 as int),
                self@ == (PlaybackView { frames: self@.frames, cursor: self@.cursor, ..old(self)@ }),
            decreases self@.cursor,
        {
            self.buffer.pop_front();
            self.buffer_start -= 1;
        }
        if self.buffer_start < self.buffer.len() {
            self.buffer_start += 1;
        }
        proof {
            assert(self@.frames =~= pop_spec(old(self)@).frames);
            assert(self@ =~= pop_spec(old(self)@));
        }
    }

    /// Move the cursor by `n` frames, stopping at either end of the buffer.
    pub fn jump(&mut self, n: isize)
        requires
            view_wf(old(self)@),
        ensures
            view_wf(final(self)@),
            final(self)@ == (PlaybackView {
                cursor: (if n >= 0 {
                    if old(self)@.cursor + n <= old(self)@.frames.len() {
                        old(self)@.cursor + n
                    } else {
                        old(self)@.frames.len() as int
                    }
                } else if old(self)@.cursor + n >= 0 {
                    old(self)@.cursor + n
                } else {
                    0
                }) as nat,
                ..old(self)@
            }),
    {
        if n >= 0 {
            let val = self.buffer_start.saturating_add(n as usize);
            let len = self.buffer.len();
            self.buffer_start = if val < len {
                val
            } else {
                len
            };
        } else {
            let back: usize = (-(n + 1)) as usize + 1;
            self.buffer_start = self.buffer_start.saturating_sub(back);
        }
    }

    /// Pause the playback. Resume with `play`.
    pub fn pause(&mut self)
        requires
            view_wf(old(self)@),
        ensures
            view_wf(final(self)@),
            final(self)@ == pause_spec(old(self)@),
    {
        self.last = None;
        self.redraw = false;
        self.paused = true;
    }

    /// Resume the playback. Also see `pause`.
    pub fn play(&mut self)
        requires
            view_wf(old(self)@),
        ensures
            view_wf(final(self)@),
            final(self)@ == play_spec(old(self)@),
    {
        self.last = None;
        self.redraw = false;
        self.paused = false;
    }

    /// Return true if player is paused, otherwise false.
    pub fn is_paused(&self) -> (r: bool)
        ensures
            r == self@.paused,
    {
        self.paused
    }

    /// Quit the player; the run loop leaves at its next turn.
    pub fn stop(&mut self)
        requires
            view_wf(old(self)@),
        ensures
            view_wf(final(self)@),
            final(self)@ == stop_spec(old(self)@),
    {
        self.stopped = true;
    }

    /// Return true if player is stopped, otherwise false.
    pub fn is_stopped(&self) -> (r: bool)
        ensures
            r == self@.stopped,
    {
        self.stopped
    }

    /// Tell the run loop to send through one frame, even if it's paused.
    /// Does nothing while playing.
    pub fn redraw(&mut self)
        requires
            view_wf(old(self)@),
        ensures
            view_wf(final(self)@),
            final(self)@ == redraw_spec(old(self)@),
    {
        if self.paused {
            self.redraw = true;
        }
    }

    /// Retrieve the frame at the cursor position.
    pub fn current(&self) -> (r: Option<&I>)
        requires
            view_wf(self@),
        ensures
            r == (if self@.cursor < self@.frames.len() {
                Some(&self@.frames[self@.cursor as int])
            } else {
                None
            }),
    {
        if self.buffer_start < self.buffer.len() {
            Some(&self.buffer[self.buffer_start])
        } else {
            None
        }
    }

    /// The frame period, in nanoseconds.
    pub fn delay(&self) -> (r: u64)
        ensures
            r == self@.delay,
    {
        self.delay
    }

    /// One turn of the run loop at time `now` (nanoseconds on a monotonic
    /// clock): catch up on whole frame periods of lag by dropping frames,
    /// consume a pending redraw, and say what to hand to the handler.
    pub fn step(&mut self, now: u64) -> (r: Step)
        requires
            view_wf(old(self)@),
        ensures
            view_wf(final(self)@),
            (final(self)@, r) == step_spec(old(self)@, now as nat),
    {
        if self.stopped {
            return Step::Exit;
        }
        if !self.paused {
            let elapsed: u64 = match self.last {
                Some(last) => now.saturating_sub(last),
                None => 0,
            };
            self.lag = self.lag.saturating_add(elapsed);
            let ghost total = self.lag as nat;
            let ghost start = self@;
            let ghost mut k: nat = 0;
            while self.lag >= self.delay
                invariant
                    view_wf(self@),
                    self@.delay == start.delay,
                    total == k * self@.delay + self@.lag,
                    (PlaybackView { lag: start.lag, ..self@ }) == pops(start, k),
                decreases self.lag,
            {
                self.lag = self.lag - self.delay;
                proof {
                    assert((k + 1) * self@.delay == k * self@.delay + self@.delay) by (nonlinear_arith);
                }
                self.pop();
                proof {
                    k = k + 1;
                }
            }
            proof {
                lemma_fundamental_div_mod_converse(total as int, self@.delay as int, k as int, self@.lag as int);
                assert(total == total_lag(old(self)@, now as nat));
            }
            self.last = Some(now);
            proof {
                assert(self@ =~= step_spec(old(self)@, now as nat).0);
            }
            Step::Play
        } else if self.redraw {
            self.redraw = false;
            proof {
                assert(self@ =~= step_spec(old(self)@, now as nat).0);
            }
            Step::Redraw
        } else {
            Step::Wait
        }
    }

    /// The end of the stream: a turn that played found no frame, and none
    /// arrived while the handler ran.
    pub fn stream_ended(&self, step: Step, delivered_none: bool) -> (r: bool)
        requires
            view_wf(self@),
        ensures
            r == ended_spec(self@, step, delivered_none),
    {
        step == Step::Play && delivered_none && self.buffer_start >= self.buffer.len()
    }
}

} // verus!
