//! The trail aggregator: a fixed-size circular buffer of cumulative motion
//! sums, fed once per frame tick with the pointer deltas drained that tick.
//!
//! Each sample `(dx, dy)` moves the head one slot backward (modulo the
//! buffer length) and stores the previous head's sum plus the delta.  On an
//! ordinary step the raw sum is first divided by [`DELTA_DIV`] (truncating)
//! and tested against a per-axis window; a sum that would leave the window
//! is replaced by the sign-flipped-and-decremented previous sum instead of
//! being clamped.  The step that wraps the head from slot `0` to the last
//! slot stores the raw sum unscaled and skips the window test.  After a run
//! of ticks with no samples the whole buffer is reset to zero.

use vstd::prelude::*;

verus! {

/// Number of slots in the trail ring buffer.
pub const TRAIL_LEN: usize = 120;

/// Divisor applied to a candidate sum before the window test, and to a
/// stored sum when it is turned into a screen offset.
pub const DELTA_DIV: i64 = 4;

/// Half-width of the window for the scaled x sum: the scaled trial value
/// must lie strictly between `-X_LIMIT` and `X_LIMIT` to be stored.
pub const X_LIMIT: i64 = 170;

/// Half-width of the window for the scaled y sum.
pub const Y_LIMIT: i64 = 80;

/// Number of consecutive sample-free ticks tolerated before the buffer is
/// reset; the reset fires on the tick that would push the count past this.
pub const IDLE_LIMIT: u32 = 50;

/// Mathematical snapshot of a trail buffer: the cumulative sums, the index
/// of the most recently written slot, and the count of consecutive ticks
/// that brought no sample.
#[verifier::ext_equal]
pub ghost struct TrailState {
    pub sums: Seq<(int, int)>,
    pub head: int,
    pub idle: int,
}

/// The snapshot shapes every buffer keeps: full length, head in range, and
/// an idle count the reset rule has not let run past its limit.
pub open spec fn wf_state(st: TrailState) -> bool {
    &&& st.sums.len() == TRAIL_LEN
    &&& 0 <= st.head < TRAIL_LEN
    &&& 0 <= st.idle <= IDLE_LIMIT
}

/// The all-zero snapshot the buffer starts from and is reset to.
pub open spec fn zero_state() -> TrailState {
    TrailState { sums: Seq::new(TRAIL_LEN as nat, |i: int| (0int, 0int)), head: 0, idle: 0 }
}

/// Division by [`DELTA_DIV`] truncating toward zero, as the executable `/`
/// on signed integers computes it.
pub open spec fn trunc_div4(s: int) -> int {
    if s >= 0 {
        s / 4
    } else {
        -((-s) / 4)
    }
}

/// One axis of an ordinary (non-wraparound) step: keep the raw sum when its
/// scaled trial lies strictly inside the window, else flip the sign of the
/// decremented previous sum.
pub open spec fn fold_axis(prev: int, delta: int, limit: int) -> int {
    let raw = prev + delta;
    if -limit < trunc_div4(raw) < limit {
        raw
    } else {
        -(prev - 1)
    }
}

/// Whether folding one sample stays within the fixed-width arithmetic of
/// the executable buffer on both axes; a sample that does not is skipped.
pub open spec fn axis_fits(prev: int, delta: int) -> bool {
    &&& i64::MIN <= prev + delta <= i64::MAX
    &&& i64::MIN + 2 <= prev
}

/// Both axes of one sample fit; see [`axis_fits`].
pub open spec fn sample_fits(st: TrailState, dx: int, dy: int) -> bool {
    &&& axis_fits(st.sums[st.head].0, dx)
    &&& axis_fits(st.sums[st.head].1, dy)
}

/// One sample folded into the buffer.  With the head at slot `0` the head
/// wraps to the last slot and the raw sum is stored unscaled; otherwise the
/// head moves down one slot and each axis goes through the window test of
/// [`fold_axis`].  A sample whose arithmetic would not fit leaves the
/// buffer unchanged.
pub open spec fn fold_one(st: TrailState, dx: int, dy: int) -> TrailState {
    if !sample_fits(st, dx, dy) {
        st
    } else {
        let prev = st.sums[st.head];
        if st.head == 0 {
            TrailState {
                sums: st.sums.update(TRAIL_LEN - 1, (prev.0 + dx, prev.1 + dy)),
                head: TRAIL_LEN - 1,
                idle: st.idle,
            }
        } else {
            TrailState {
                sums: st.sums.update(
                    st.head - 1,
                    (fold_axis(prev.0, dx, X_LIMIT as int), fold_axis(prev.1, dy, Y_LIMIT as int)),
                ),
                head: st.head - 1,
                idle: st.idle,
            }
        }
    }
}

/// A whole tick's worth of samples folded in arrival order: the first
/// element of the sequence is folded first.
pub open spec fn fold_all(st: TrailState, samples: Seq<(i32, i32)>) -> TrailState
    decreases samples.len(),
{
    if samples.len() == 0 {
        st
    } else {
        fold_all(
            fold_one(st, samples[0].0 as int, samples[0].1 as int),
            samples.drop_first(),
        )
    }
}

/// One frame tick: fold the drained samples in order, reset the idle count
/// when any sample arrived and raise it otherwise, then zero the whole
/// buffer once the idle count passes [`IDLE_LIMIT`].
pub open spec fn tick_spec(st: TrailState, samples: Seq<(i32, i32)>) -> TrailState {
    let folded = fold_all(st, samples);
    let counted = if samples.len() > 0 {
        TrailState { idle: 0, ..folded }
    } else {
        TrailState { idle: folded.idle + 1, ..folded }
    };
    if counted.idle > IDLE_LIMIT {
        zero_state()
    } else {
        counted
    }
}

/// The executable trail buffer; its mathematical snapshot is a
/// [`TrailState`].
pub struct TrailBuffer {
    sums: Vec<(i64, i64)>,
    head: usize,
    idle_ticks: u32,
}

impl View for TrailBuffer {
    type V = TrailState;

    closed spec fn view(&self) -> TrailState {
        TrailState {
            sums: self.sums@.map(|i: int, p: (i64, i64)| (p.0 as int, p.1 as int)),
            head: self.head as int,
            idle: self.idle_ticks as int,
        }
    }
}

impl TrailBuffer {
    /// The buffer's internal invariant; every public method keeps it.
    pub open spec fn wf(&self) -> bool {
        wf_state(self@)
    }

    /// A fresh, all-zero buffer with the head at slot `0`.
    pub fn new() -> (buffer: TrailBuffer)
        ensures
            buffer.wf(),
            buffer@ == zero_state(),
    {
        let mut sums: Vec<(i64, i64)> = Vec::new();
        let mut i: usize = 0;
        while i < TRAIL_LEN
            invariant
                i <= TRAIL_LEN,
                sums@.len() == i,
                forall|j: int| 0 <= j < i ==> sums@[j] == (0i64, 0i64),
            decreases TRAIL_LEN - i,
        {
            sums.push((0i64, 0i64));
            i = i + 1;
        }
        let buffer = TrailBuffer { sums, head: 0, idle_ticks: 0 };
        proof {
            assert(buffer@.sums =~= zero_state().sums);
            assert(buffer@ =~= zero_state());
        }
        buffer
    }

    /// Index of the most recently written slot.
    pub fn head(&self) -> (h: usize)
        ensures
            h == self@.head,
    {
        self.head
    }

    /// Count of consecutive ticks that brought no sample.
    pub fn idle_ticks(&self) -> (n: u32)
        ensures
            n == self@.idle,
    {
        self.idle_ticks
    }

    /// The cumulative sum stored in one slot.
    pub fn sum_at(&self, i: usize) -> (s: (i64, i64))
        requires
            self.wf(),
            i < TRAIL_LEN,
        ensures
            (s.0 as int, s.1 as int) == self@.sums[i as int],
    {
        self.sums[i]
    }

    /// Folds one sample into the buffer, returning whether it was applied;
    /// a sample whose arithmetic would overflow the slot type is skipped
    /// and the buffer is left unchanged.
    pub fn fold_sample(&mut self, dx: i32, dy: i32) -> (applied: bool)
        requires
            old(self).wf(),
        ensures
            final(self).wf(),
            final(self)@ == fold_one(old(self)@, dx as int, dy as int),
            applied == sample_fits(old(self)@, dx as int, dy as int),
    {
        let prev = self.sums[self.head];
        let sx = prev.0.checked_add(dx as i64);
        let sy = prev.1.checked_add(dy as i64);
        if sx.is_none() || sy.is_none() || prev.0 < i64::MIN + 2 || prev.1 < i64::MIN + 2 {
            assert(!sample_fits(self@, dx as int, dy as int));
            return false;
        }
        let sx = sx.unwrap();
        let sy = sy.unwrap();
        if self.head == 0 {
            let new_head = TRAIL_LEN - 1;
            self.sums[new_head] = (sx, sy);
            self.head = new_head;
        } else {
            let new_head = self.head - 1;
            let trial_x = sx / DELTA_DIV;
            let vx = if -X_LIMIT < trial_x && trial_x < X_LIMIT { sx } else { -(prev.0 - 1) };
            let trial_y = sy / DELTA_DIV;
            let vy = if -Y_LIMIT < trial_y && trial_y < Y_LIMIT { sy } else { -(prev.1 - 1) };
            self.sums[new_head] = (vx, vy);
            self.head = new_head;
        }
        proof {
            assert(final(self)@.sums =~= fold_one(old(self)@, dx as int, dy as int).sums);
            assert(final(self)@ =~= fold_one(old(self)@, dx as int, dy as int));
        }
        true
    }

    /// Resets the buffer to the all-zero state with the head at slot `0`.
    pub fn reset(&mut self)
        ensures
            final(self).wf(),
            final(self)@ == zero_state(),
    {
        *self = TrailBuffer::new();
    }

    /// Runs one frame tick over the samples drained this tick: folds each in
    /// arrival order, maintains the idle count, and applies the idle reset.
    pub fn tick(&mut self, samples: &Vec<(i32, i32)>)
        requires
            old(self).wf(),
        ensures
            final(self).wf(),
            final(self)@ == tick_spec(old(self)@, samples@),
    {
        let n = samples.len();
        let mut i: usize = 0;
        while i < n
            invariant
                old(self).wf(),
                self.wf(),
                i <= n,
                n == samples@.len(),
                self@ == fold_all(old(self)@, samples@.take(i as int)),
            decreases n - i,
        {
            let s = samples[i];
            proof {
                lemma_fold_all_push(old(self)@, samples@.take(i as int), s);
                assert(samples@.take(i as int).push(s) =~= samples@.take(i + 1));
            }
            self.fold_sample(s.0, s.1);
            i = i + 1;
        }
        proof {
            assert(samples@.take(n as int) =~= samples@);
        }
        if n > 0 {
            self.idle_ticks = 0;
        } else {
            self.idle_ticks = self.idle_ticks + 1;
        }
        if self.idle_ticks > IDLE_LIMIT {
            self.reset();
        }
    }
}

/// One slot's sum lies inside the buffer envelope: its scaled value never
/// leaves the per-axis window, so the raw value stays in
/// `(-DELTA_DIV * X_LIMIT, DELTA_DIV * X_LIMIT]` on x and likewise on y.
pub open spec fn slot_in_envelope(p: (int, int)) -> bool {
    &&& -(4 * X_LIMIT as int) < p.0 <= 4 * X_LIMIT as int
    &&& -(4 * Y_LIMIT as int) < p.1 <= 4 * Y_LIMIT as int
}

/// Every slot of the buffer lies inside the envelope.
pub open spec fn in_envelope(st: TrailState) -> bool {
    forall|i: int| 0 <= i < st.sums.len() ==> slot_in_envelope(#[trigger] st.sums[i])
}

/// The buffer starts (and restarts after an idle reset) inside the
/// envelope, anchoring [`lemma_envelope_preserved`].
pub proof fn lemma_zero_in_envelope()
    ensures
        in_envelope(zero_state()),
{
}

/// Buffer bounds: on every step except the wraparound-exempt one (head at
/// slot `0`), the window/clip policy keeps all cumulative sums inside the
/// envelope — the stored value either passes the scaled window test or is
/// the sign-flipped decrement of a value that was already inside.
pub proof fn lemma_envelope_preserved(st: TrailState, dx: int, dy: int)
    requires
        wf_state(st),
        in_envelope(st),
        st.head != 0,
    ensures
        in_envelope(fold_one(st, dx, dy)),
{
    if sample_fits(st, dx, dy) {
        let prev = st.sums[st.head];
        assert(slot_in_envelope(prev));
        let folded = fold_one(st, dx, dy);
        assert(slot_in_envelope(folded.sums[st.head - 1]));
        assert forall|i: int| 0 <= i < folded.sums.len() implies slot_in_envelope(
            #[trigger] folded.sums[i],
        ) by {
            if i != st.head - 1 {
                assert(folded.sums[i] == st.sums[i]);
            }
        }
    }
}

/// Wraparound: a sample arriving with the head at slot `0` relocates the
/// head to the last slot, and the new sum there is the previous sum plus
/// the raw delta — unscaled, exempt from the window test.
pub proof fn lemma_wraparound(st: TrailState, dx: int, dy: int)
    requires
        wf_state(st),
        st.head == 0,
        sample_fits(st, dx, dy),
    ensures
        fold_one(st, dx, dy).head == TRAIL_LEN - 1,
        fold_one(st, dx, dy).sums[TRAIL_LEN - 1] == (st.sums[0].0 + dx, st.sums[0].1 + dy),
{
}

/// The buffer after `n` consecutive ticks in which no sample arrived.
pub open spec fn run_idle(st: TrailState, n: nat) -> TrailState
    decreases n,
{
    if n == 0 {
        st
    } else {
        tick_spec(run_idle(st, (n - 1) as nat), Seq::empty())
    }
}

/// Idle reset: starting from a buffer touched this tick (idle count `0`),
/// the sums and head survive [`IDLE_LIMIT`] sample-free ticks unchanged,
/// and on the very next such tick the whole buffer is zeroed.
pub proof fn lemma_idle_reset(st: TrailState, n: nat)
    requires
        wf_state(st),
        st.idle == 0,
    ensures
        n <= IDLE_LIMIT ==> run_idle(st, n) == (TrailState { idle: n as int, ..st }),
        n == IDLE_LIMIT + 1 ==> run_idle(st, n) == zero_state(),
    decreases n,
{
    if n == 0 {
        assert(run_idle(st, n) =~= TrailState { idle: 0, ..st });
    } else {
        lemma_idle_reset(st, (n - 1) as nat);
    }
}

/// Samples are folded one at a time in arrival order: folding a sequence
/// extended by one more sample is folding the sequence and then folding
/// that sample.
pub proof fn lemma_fold_all_push(st: TrailState, samples: Seq<(i32, i32)>, s: (i32, i32))
    ensures
        fold_all(st, samples.push(s)) == fold_one(fold_all(st, samples), s.0 as int, s.1 as int),
    decreases samples.len(),
{
    if samples.len() == 0 {
        assert(samples.push(s)[0] == s);
        assert(samples.push(s).drop_first() =~= Seq::<(i32, i32)>::empty());
        assert(fold_all(st, samples.push(s)) == fold_all(
            fold_one(st, s.0 as int, s.1 as int),
            Seq::<(i32, i32)>::empty(),
        ));
        assert(fold_all(st, samples) == st);
    } else {
        assert(samples.push(s)[0] == samples[0]);
        assert(samples.push(s).drop_first() =~= samples.drop_first().push(s));
        assert(fold_all(st, samples.push(s)) == fold_all(
            fold_one(st, samples[0].0 as int, samples[0].1 as int),
            samples.drop_first().push(s),
        ));
        lemma_fold_all_push(
            fold_one(st, samples[0].0 as int, samples[0].1 as int),
            samples.drop_first(),
            s,
        );
    }
}

} // verus!
