//! Turning elapsed wall-clock time into fixed simulation steps.
//!
//! All times are whole nanoseconds.

use std::time::Instant;
use vstd::prelude::*;

verus! {

/// Time that has passed and has not been simulated yet, beside the length of
/// one simulation step.
pub struct Backlog {
    /// The time not yet simulated.
    pub acc: nat,
    /// The length of one step.
    pub step: nat,
}

impl Backlog {
    /// The backlog after `elapsed` more time has passed.
    pub open spec fn advance(self, elapsed: nat) -> Backlog {
        Backlog { acc: self.acc + elapsed, step: self.step }
    }

    /// Whether the backlog holds a whole step, so that an update is due.
    pub open spec fn due(self) -> bool {
        self.acc >= self.step
    }

    /// The backlog after one due step has been taken from it.
    pub open spec fn consume(self) -> Backlog {
        Backlog { acc: (self.acc - self.step) as nat, step: self.step }
    }

    /// The backlog after `k` steps have been taken from it, one by one.
    pub open spec fn drain(self, k: nat) -> Backlog
        decreases k,
    {
        if k == 0 {
            self
        } else {
            self.drain((k - 1) as nat).consume()
        }
    }

    /// How long to wait until the next step is due; zero where one is due.
    pub open spec fn shortfall(self) -> nat {
        if self.acc < self.step {
            (self.step - self.acc) as nat
        } else {
            0
        }
    }

    /// The same step with another amount of time in the backlog.
    pub open spec fn with_acc(self, acc: nat) -> Backlog {
        Backlog { acc, step: self.step }
    }

    /// What becomes of a clock reading: `now` is the instant read, `nanos`
    /// the time from the last reading `last` to it. Where the backlog has
    /// room for the time, all of it is taken and `now` becomes the last
    /// reading; where not, nothing is taken and `last` stays.
    pub open spec fn taking(self, last: Instant, now: Instant, nanos: u128) -> (u64, Instant) {
        if self.acc + nanos <= u64::MAX {
            (nanos as u64, now)
        } else {
            (0, last)
        }
    }

    /// The number of steps that are due.
    pub open spec fn ticks(self) -> nat
        recommends
            self.step > 0,
    {
        self.acc / self.step
    }
}

/// Why an accumulator could not be made.
#[derive(Clone, Copy, Debug, PartialEq, Eq, Structural)]
pub enum ConfigError {
    /// The step is zero, so every amount of time would hold endlessly many
    /// steps.
    ZeroStep,
}

/// The due steps of one pass: each call of [`RealtimeIter::next`] takes one
/// step from the backlog for as long as one is due.
#[derive(Clone, Copy, Debug)]
pub struct RealtimeIter {
    acc: u64,
    step: u64,
}

impl View for RealtimeIter {
    type V = Backlog;

    closed spec fn view(&self) -> Backlog {
        Backlog { acc: self.acc as nat, step: self.step as nat }
    }
}

impl RealtimeIter {
    /// A sequence for steps of `step` nanoseconds, with nothing in the
    /// backlog.
    pub fn new(step: u64) -> (ticks: RealtimeIter)
        ensures
            ticks@ == (Backlog { acc: 0, step: step as nat }),
    {
        RealtimeIter { acc: 0, step }
    }

    /// Replaces the backlog.
    pub fn set(&mut self, acc: u64)
        ensures
            final(self)@ == old(self)@.with_acc(acc as nat),
    {
        self.acc = acc;
    }

    /// Takes the next due step from the backlog and gives what is left of
    /// it, or gives `None` and changes nothing where no step is due. After
    /// `None` the caller waits for [`RealtimeIter::shortfall`].
    pub fn next(&mut self) -> (rest: Option<u64>)
        ensures
            old(self)@.due() ==> final(self)@ == old(self)@.consume() && rest.is_some()
                && rest.unwrap() == final(self)@.acc,
            !old(self)@.due() ==> final(self)@ == old(self)@ && rest.is_none(),
    {
        if self.acc >= self.step {
            self.acc = self.acc - self.step;
            Some(self.acc)
        } else {
            None
        }
    }

    /// Whether a step is due.
    pub fn due(&self) -> (yes: bool)
        ensures
            yes == self@.due(),
    {
        self.acc >= self.step
    }

    /// How long to wait until the next step is due; zero where one is due.
    pub fn shortfall(&self) -> (wait: u64)
        ensures
            wait == self@.shortfall(),
    {
        if self.acc < self.step {
            self.step - self.acc
        } else {
            0
        }
    }

    /// The time left in the backlog.
    pub fn remaining(&self) -> (acc: u64)
        ensures
            acc == self@.acc,
    {
        self.acc
    }

    /// Both numbers of a sequence are held in a `u64`.
    pub proof fn lemma_bounded(&self)
        ensures
            self@.acc <= u64::MAX,
            self@.step <= u64::MAX,
    {
    }
}

/// Gathers the wall-clock time that passes and hands it out in steps of a
/// fixed length.
pub struct Realtime {
    acc: u64,
    curr: Instant,
    iter: RealtimeIter,
}

impl View for Realtime {
    type V = Backlog;

    closed spec fn view(&self) -> Backlog {
        Backlog { acc: self.acc as nat, step: self.iter@.step }
    }
}

impl Realtime {
    #[verifier::type_invariant]
    spec fn step_is_positive(&self) -> bool {
        self.iter@.step > 0
    }

    /// The instant of the last clock reading whose time went into the
    /// backlog; at first, the instant at which the accumulator was made.
    pub closed spec fn last_reading(&self) -> Instant {
        self.curr
    }

    /// An accumulator for steps of `step` nanoseconds, with an empty
    /// backlog; time counts from now. A step of zero is refused.
    pub fn new(step: u64) -> (made: Result<Realtime, ConfigError>)
        ensures
            step == 0 ==> made == Err::<Realtime, ConfigError>(ConfigError::ZeroStep),
            step > 0 ==> made.is_ok() && made.unwrap()@ == (Backlog { acc: 0, step: step as nat }),
    {
        if step == 0 {
            return Err(ConfigError::ZeroStep);
        }
        Ok(Realtime { acc: 0, curr: Instant::now(), iter: RealtimeIter::new(step) })
    }

    /// Replaces the backlog by what a pass has left of it.
    pub fn acc(&mut self, acc: u64)
        ensures
            final(self)@ == old(self)@.with_acc(acc as nat),
            final(self).last_reading() == old(self).last_reading(),
    {
        proof {
            use_type_invariant(&*self);
        }
        self.acc = acc;
    }

    /// Adds the time that has passed since the last call to the backlog and
    /// hands out the due steps of this pass.
    ///
    /// The clock decides how much time is added, so the outcome is that of
    /// [`Realtime::take`] and [`Realtime::advance`] for some reading. Time
    /// that the backlog has no room for stays on the clock, and the next
    /// call measures it again.
    pub fn tick(&mut self) -> (ticks: RealtimeIter)
        ensures
            exists|now: Instant, nanos: u128|
                {
                    let taken = #[trigger] old(self)@.taking(old(self).last_reading(), now, nanos);
                    &&& final(self)@ == old(self)@.advance(taken.0 as nat)
                    &&& final(self).last_reading() == taken.1
                },
            ticks@ == final(self)@,
    {
        let elapsed: u64 = self.lap();
        self.advance(elapsed)
    }

    /// Adds `elapsed` nanoseconds to the backlog and hands out the due steps
    /// of this pass.
    pub fn advance(&mut self, elapsed: u64) -> (ticks: RealtimeIter)
        requires
            old(self)@.acc + elapsed <= u64::MAX,
        ensures
            final(self)@ == old(self)@.advance(elapsed as nat),
            final(self).last_reading() == old(self).last_reading(),
            ticks@ == final(self)@,
    {
        proof {
            use_type_invariant(&*self);
        }
        self.acc = self.acc + elapsed;
        let mut ticks = self.iter;
        ticks.set(self.acc);
        ticks
    }

    /// The time in the backlog.
    pub fn backlog(&self) -> (acc: u64)
        ensures
            acc == self@.acc,
    {
        self.acc
    }

    /// The length of one step, which is never zero.
    pub fn step(&self) -> (step: u64)
        ensures
            step == self@.step,
            step > 0,
    {
        proof {
            use_type_invariant(self);
        }
        self.iter.step
    }

    /// The backlog of an accumulator is held in a `u64`.
    pub proof fn lemma_bounded(&self)
        ensures
            self@.acc <= u64::MAX,
    {
    }

    /// Reads the clock and takes the reading: the result is the time since
    /// the last reading where the backlog has room for it, and zero where
    /// not. The outcome is that of [`Realtime::take`] for some reading.
    pub(crate) fn lap(&mut self) -> (elapsed: u64)
        ensures
            final(self)@ == old(self)@,
            old(self)@.acc + elapsed <= u64::MAX,
            exists|now: Instant, nanos: u128|
                (elapsed, final(self).last_reading()) == #[trigger] old(self)@.taking(
                    old(self).last_reading(),
                    now,
                    nanos,
                ),
    {
        let now = Instant::now();
        let nanos: u128 = now.saturating_duration_since(self.curr).as_nanos();
        let elapsed: u64 = self.take(now, nanos);
        assert((elapsed, self.last_reading()) == old(self)@.taking(
            old(self).last_reading(),
            now,
            nanos,
        ));
        elapsed
    }

    /// Takes a clock reading: `now` is the instant read, `nanos` the time
    /// from the last reading to it. Where the backlog has room for the time,
    /// the result is that time and `now` becomes the last reading; where not,
    /// the result is zero and the last reading stays, so that the time is
    /// measured again. The backlog itself is left to [`Realtime::advance`].
    pub fn take(&mut self, now: Instant, nanos: u128) -> (elapsed: u64)
        ensures
            final(self)@ == old(self)@,
            old(self)@.acc + nanos <= u64::MAX ==> elapsed == nanos && final(self).last_reading()
                == now,
            old(self)@.acc + nanos > u64::MAX ==> elapsed == 0 && final(self).last_reading()
                == old(self).last_reading(),
    {
        proof {
            use_type_invariant(&*self);
        }
        match self.measure(nanos) {
            Some(elapsed) => {
                self.curr = now;
                elapsed
            },
            None => 0,
        }
    }

    /// What the backlog takes of a clock reading of `nanos` nanoseconds: the
    /// whole reading where the backlog has room for it, and `None` where the
    /// two together are more than a `u64` holds.
    pub fn measure(&self, nanos: u128) -> (taken: Option<u64>)
        ensures
            self@.acc + nanos <= u64::MAX ==> taken == Some(nanos as u64),
            self@.acc + nanos > u64::MAX ==> taken.is_none(),
    {
        if nanos <= (u64::MAX - self.acc) as u128 {
            Some(nanos as u64)
        } else {
            None
        }
    }
}

/// A backlog holds `ticks()` whole steps: that many can be taken from it one
/// by one, each of them due, and each leaves exactly one step less.
pub proof fn lemma_drain_takes_whole_steps(backlog: Backlog, k: nat)
    requires
        backlog.step > 0,
        k <= backlog.ticks(),
    ensures
        backlog.drain(k).step == backlog.step,
        backlog.drain(k).acc == backlog.acc - k * backlog.step,
        backlog.drain(k).due() <==> k < backlog.ticks(),
    decreases k,
{
    let step = backlog.step;
    let acc = backlog.acc;
    let whole = backlog.ticks();
    assert(acc == whole * step + acc % step && acc % step < step) by {
        vstd::arithmetic::div_mod::lemma_fundamental_div_mod(acc as int, step as int);
        vstd::arithmetic::div_mod::lemma_mod_bound(acc as int, step as int);
        assert(step * (acc / step) == (acc / step) * step) by (nonlinear_arith);
    }
    if k == 0 {
        assert(k * step == 0) by (nonlinear_arith)
            requires
                k == 0,
        ;
    } else {
        lemma_drain_takes_whole_steps(backlog, (k - 1) as nat);
        assert(((k - 1) as nat) * step + step == k * step) by (nonlinear_arith)
            requires
                k > 0,
        ;
    }
    if k < whole {
        assert(k * step + step <= whole * step) by (nonlinear_arith)
            requires
                k + 1 <= whole,
        ;
    } else {
        assert(k * step == whole * step) by (nonlinear_arith)
            requires
                k == whole,
        ;
    }
}

/// When every due step has been taken, less than one step is left in the
/// backlog: the remainder of the time by the step.
pub proof fn lemma_drain_leaves_less_than_a_step(backlog: Backlog)
    requires
        backlog.step > 0,
    ensures
        !backlog.drain(backlog.ticks()).due(),
        backlog.drain(backlog.ticks()).acc == backlog.acc % backlog.step,
        backlog.drain(backlog.ticks()).acc < backlog.step,
        backlog.drain(backlog.ticks()).shortfall() == backlog.step - backlog.acc % backlog.step,
{
    let step = backlog.step as int;
    let acc = backlog.acc as int;
    lemma_drain_takes_whole_steps(backlog, backlog.ticks());
    vstd::arithmetic::div_mod::lemma_fundamental_div_mod(acc, step);
    vstd::arithmetic::div_mod::lemma_mod_bound(acc, step);
    assert(step * (acc / step) == (acc / step) * step) by (nonlinear_arith);
}

} // verus!
