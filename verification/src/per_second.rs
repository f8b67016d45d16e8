//! Counting events per wall-clock second.

use std::time::Instant;
use vstd::prelude::*;

verus! {

/// What a rate counter holds, as numbers.
pub struct RateView {
    /// Events counted so far in the second that is still running.
    pub frames: nat,
    /// Events counted in the last second that was completed.
    pub fps: nat,
    /// Index of the second that is still running, counted from the creation
    /// of the counter.
    pub curr: nat,
}

impl RateView {
    /// A counter that has seen nothing.
    pub open spec fn fresh() -> RateView {
        RateView { frames: 0, fps: 0, curr: 0 }
    }

    /// The counter after one event that arrives while the clock shows `next`
    /// whole seconds. An event in a later second than the running one closes
    /// the running second: its count becomes the rate, and counting starts
    /// over in second `next`. The event itself is counted in either case.
    pub open spec fn record(self, next: nat) -> RateView {
        if self.curr < next {
            RateView { frames: 1, fps: self.frames, curr: next }
        } else {
            RateView { frames: self.frames + 1, fps: self.fps, curr: self.curr }
        }
    }

    /// The counter after one event for each reading, in order.
    pub open spec fn replay(self, readings: Seq<nat>) -> RateView
        decreases readings.len(),
    {
        if readings.len() == 0 {
            self
        } else {
            self.replay(readings.drop_last()).record(readings.last())
        }
    }

    /// No event has been counted in `second` yet, and none in a later one.
    pub open spec fn opens(self, second: nat) -> bool {
        self.curr < second || (self.curr == second && self.frames == 0)
    }
}

/// Counts events and reports how many fell into the last completed second.
pub struct PerSecond {
    frames: i32,
    fps: i32,
    start: Instant,
    curr: u64,
}

impl View for PerSecond {
    type V = RateView;

    closed spec fn view(&self) -> RateView {
        RateView {
            frames: if self.frames >= 0 {
                self.frames as nat
            } else {
                0
            },
            fps: if self.fps >= 0 {
                self.fps as nat
            } else {
                0
            },
            curr: self.curr as nat,
        }
    }
}

impl PerSecond {
    #[verifier::type_invariant]
    spec fn counts_are_natural(&self) -> bool {
        0 <= self.frames && 0 <= self.fps
    }

    /// The instant from which the counter counts its seconds. It is set when
    /// the counter is made and stays as it is from then on.
    pub closed spec fn started(&self) -> Instant {
        self.start
    }

    /// A counter that has seen nothing; its seconds are counted from now.
    pub fn new() -> (counter: PerSecond)
        ensures
            counter@ == RateView::fresh(),
    {
        PerSecond { frames: 0, fps: 0, start: Instant::now(), curr: 0 }
    }

    /// Counts one event at the present time.
    ///
    /// The clock decides which second the event falls into, so the outcome is
    /// that of [`PerSecond::record`] for some reading. The count of the
    /// running second must have room for one more event.
    pub fn tick(&mut self)
        requires
            old(self)@.frames < i32::MAX,
        ensures
            exists|next: nat| final(self)@ == #[trigger] old(self)@.record(next),
            final(self).started() == old(self).started(),
    {
        let next: u64 = self.elapsed();
        self.record(next);
    }

    /// Counts one event that arrives while the clock shows `next` whole
    /// seconds since the counter was created. The new count of the running
    /// second must fit an `i32`.
    pub fn record(&mut self, next: u64)
        requires
            old(self)@.record(next as nat).frames <= i32::MAX,
        ensures
            final(self)@ == old(self)@.record(next as nat),
            final(self).started() == old(self).started(),
    {
        if self.curr < next {
            self.reset(next);
        }
        proof {
            use_type_invariant(&*self);
        }
        self.frames = self.frames + 1;
    }

    /// The number of events in the last completed second; zero until a
    /// second has been completed.
    pub fn get_fps(&self) -> (fps: i32)
        ensures
            fps == self@.fps,
    {
        proof {
            use_type_invariant(self);
        }
        self.fps
    }

    /// The number of events counted so far in the running second.
    pub fn frames(&self) -> (frames: i32)
        ensures
            frames == self@.frames,
    {
        proof {
            use_type_invariant(self);
        }
        self.frames
    }

    /// Both counts of a counter are held in an `i32`.
    pub proof fn lemma_bounded(&self)
        ensures
            self@.frames <= i32::MAX,
            self@.fps <= i32::MAX,
    {
    }

    /// Whole seconds on the clock since the counter was created.
    pub(crate) fn elapsed(&self) -> (secs: u64) {
        Instant::now().saturating_duration_since(self.start).as_secs()
    }

    /// Closes the running second and starts counting second `next`.
    fn reset(&mut self, next: u64)
        ensures
            final(self)@ == (RateView { frames: 0, fps: old(self)@.frames, curr: next as nat }),
            final(self).started() == old(self).started(),
    {
        proof {
            use_type_invariant(&*self);
        }
        self.curr = next;
        self.fps = self.frames;
        self.frames = 0;
    }
}

/// As long as the clock shows no whole second, the rate stays at zero, and
/// every event is counted in the running second.
pub proof fn lemma_rate_is_zero_in_first_second(readings: Seq<nat>)
    requires
        forall|i: int| 0 <= i < readings.len() ==> readings[i] == 0,
    ensures
        RateView::fresh().replay(readings).fps == 0,
        RateView::fresh().replay(readings).frames == readings.len(),
        RateView::fresh().replay(readings).curr == 0,
    decreases readings.len(),
{
    if readings.len() > 0 {
        lemma_rate_is_zero_in_first_second(readings.drop_last());
    }
}

/// `n` events that all fall into `second` bring the count of the running
/// second to `n`, whatever the counter held of earlier seconds.
pub proof fn lemma_count_within_second(before: RateView, second: nat, n: nat)
    requires
        before.opens(second),
        before.curr < second ==> n >= 1,
    ensures
        before.replay(Seq::new(n, |i: int| second)).frames == n,
        before.replay(Seq::new(n, |i: int| second)).curr == second,
    decreases n,
{
    let readings = Seq::new(n, |i: int| second);
    if n > 0 {
        let shorter = Seq::new((n - 1) as nat, |i: int| second);
        assert(readings.drop_last() =~= shorter);
        if n == 1 {
            assert(before.replay(shorter) == before);
        } else {
            lemma_count_within_second(before, second, (n - 1) as nat);
        }
    }
}

/// After a second in which `n` events were counted, the first event past
/// the end of that second makes `n` the rate.
pub proof fn lemma_rate_after_full_second(before: RateView, second: nat, n: nat, next: nat)
    requires
        before.opens(second),
        before.curr < second ==> n >= 1,
        second < next,
    ensures
        before.replay(Seq::new(n, |i: int| second)).record(next).fps == n,
        before.replay(Seq::new(n, |i: int| second)).record(next).frames == 1,
{
    lemma_count_within_second(before, second, n);
}

} // verus!
