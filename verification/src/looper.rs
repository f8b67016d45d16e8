//! The loop itself, as a machine that is told what happened and answers what
//! to do next.
//!
//! The caller owns the two callbacks and the thread. It performs each
//! [`Command`] and reports the outcome as the next [`Event`]:
//! `Render` and `Update` are answered by what the callback returned,
//! `Sleep` by `Slept`, and `Halt` ends the loop.

use crate::action::Action;
use crate::per_second::PerSecond;
use crate::per_second::RateView;
use crate::realtime::Backlog;
use crate::realtime::ConfigError;
use crate::realtime::Realtime;
use crate::realtime::RealtimeIter;
use std::time::Instant;
use vstd::prelude::*;

verus! {

/// Where the loop stands between two events.
#[derive(Clone, Copy, Debug, PartialEq, Eq, Structural)]
pub enum Phase {
    /// Nothing has happened yet.
    Ready,
    /// The render callback has been asked for.
    Rendering,
    /// The update callback has been asked for.
    Updating,
    /// A wait for the next step has been asked for.
    Sleeping,
    /// The render callback has stopped the loop.
    Stopped,
}

/// What the caller reports to the loop.
#[derive(Clone, Copy, Debug, PartialEq, Eq, Structural)]
pub enum Event {
    /// The loop is to begin.
    Started,
    /// The render callback returned.
    Rendered(Action),
    /// The update callback returned.
    Updated(Action),
    /// The wait is over.
    Slept,
}

/// What the loop asks of the caller.
#[derive(Clone, Copy, Debug, PartialEq, Eq, Structural)]
pub enum Command {
    /// Call the render callback with this rate of render calls per second.
    Render(i32),
    /// Call the update callback with this rate of update calls per second.
    Update(i32),
    /// Wait for this many nanoseconds.
    Sleep(u64),
    /// Leave the loop.
    Halt,
}

/// What the clocks show when an event arrives.
#[derive(Clone, Copy, Debug, PartialEq, Eq, Structural)]
pub struct Reading {
    /// Whole seconds on the clock of the render counter.
    pub render_secs: u64,
    /// Whole seconds on the clock of the update counter.
    pub update_secs: u64,
    /// Nanoseconds since the accumulator last took the time. It is taken only
    /// when the render callback has returned `Continue`.
    pub elapsed: u64,
}

/// What a loop holds, as numbers.
pub struct LooperView {
    /// Where the loop stands.
    pub phase: Phase,
    /// The counter of render calls.
    pub render: RateView,
    /// The counter of update calls.
    pub update: RateView,
    /// The backlog that the accumulator has been told of.
    pub backlog: Backlog,
    /// The backlog as the due steps of the running pass have left it.
    pub ticks: Backlog,
}

impl LooperView {
    /// A loop for steps of `step` nanoseconds to which nothing has happened.
    pub open spec fn fresh(step: nat) -> LooperView {
        LooperView {
            phase: Phase::Ready,
            render: RateView::fresh(),
            update: RateView::fresh(),
            backlog: Backlog { acc: 0, step },
            ticks: Backlog { acc: 0, step },
        }
    }

    /// Whether `event` answers what the loop has asked for.
    pub open spec fn admits(self, event: Event) -> bool {
        match event {
            Event::Started => self.phase == Phase::Ready,
            Event::Rendered(_) => self.phase == Phase::Rendering,
            Event::Updated(_) => self.phase == Phase::Updating,
            Event::Slept => self.phase == Phase::Sleeping,
        }
    }

    /// A pass begins: the render call is counted and asked for.
    pub open spec fn begin(self, clock: Reading) -> (LooperView, Command) {
        let render = self.render.record(clock.render_secs as nat);
        (
            LooperView { phase: Phase::Rendering, render, ..self },
            Command::Render(render.fps as i32),
        )
    }

    /// The next due step is taken, and its update call counted and asked
    /// for; where none is due, the wait for the next one is asked for.
    pub open spec fn pull(self, clock: Reading) -> (LooperView, Command) {
        if self.ticks.due() {
            let update = self.update.record(clock.update_secs as nat);
            (
                LooperView { phase: Phase::Updating, update, ticks: self.ticks.consume(), ..self },
                Command::Update(update.fps as i32),
            )
        } else {
            (
                LooperView { phase: Phase::Sleeping, ..self },
                Command::Sleep(self.ticks.shortfall() as u64),
            )
        }
    }

    /// The loop after `event`, and what it asks for next.
    ///
    /// `Stop` from the render callback ends the loop. `Continue` from it
    /// adds the elapsed time to the backlog and starts taking the due steps.
    /// After every update call the accumulator is told what the steps have
    /// left; `Stop` from the update callback then ends the pass with the
    /// remaining steps still in the backlog, and `Continue` goes on to the
    /// next step. After a wait the next pass begins.
    pub open spec fn step(self, event: Event, clock: Reading) -> (LooperView, Command) {
        match event {
            Event::Started => self.begin(clock),
            Event::Slept => self.begin(clock),
            Event::Rendered(Action::Stop) => (
                LooperView { phase: Phase::Stopped, ..self },
                Command::Halt,
            ),
            Event::Rendered(Action::Continue) => {
                let backlog = self.backlog.advance(clock.elapsed as nat);
                (LooperView { backlog, ticks: backlog, ..self }).pull(clock)
            },
            Event::Updated(action) => {
                let told = LooperView { backlog: self.backlog.with_acc(self.ticks.acc), ..self };
                if action == Action::Stop {
                    told.begin(clock)
                } else {
                    told.pull(clock)
                }
            },
        }
    }

    /// Whether the numbers of the loop after `event` fit the machine: the
    /// two counts in an `i32`, the backlog in a `u64`.
    pub open spec fn fits(self, event: Event, clock: Reading) -> bool {
        let after = self.step(event, clock).0;
        &&& after.render.frames <= i32::MAX
        &&& after.update.frames <= i32::MAX
        &&& after.backlog.acc <= u64::MAX
    }

    /// Whether the counter that `event` may lead to count a call can count
    /// one more. The render counter counts when a pass begins: at the start,
    /// after a wait and after `Stop` from the update callback. The update
    /// counter counts when a due step is taken, as may be after `Continue`
    /// from either callback. `Stop` from the render callback counts nothing.
    pub open spec fn has_room(self, event: Event) -> bool {
        match event {
            Event::Started => self.render.frames < i32::MAX,
            Event::Slept => self.render.frames < i32::MAX,
            Event::Updated(Action::Stop) => self.render.frames < i32::MAX,
            Event::Rendered(Action::Stop) => true,
            Event::Rendered(Action::Continue) => self.update.frames < i32::MAX,
            Event::Updated(Action::Continue) => self.ticks.due() ==> self.update.frames
                < i32::MAX,
        }
    }
}

/// A fixed-timestep loop: one render call per pass, and one update call for
/// every step of the fixed length that the elapsed time holds.
pub struct Looper {
    phase: Phase,
    rps: PerSecond,
    ups: PerSecond,
    realtime: Realtime,
    ticks: RealtimeIter,
}

impl View for Looper {
    type V = LooperView;

    closed spec fn view(&self) -> LooperView {
        LooperView {
            phase: self.phase,
            render: self.rps@,
            update: self.ups@,
            backlog: self.realtime@,
            ticks: self.ticks@,
        }
    }
}

impl Looper {
    /// The instants that the loop keeps: those from which the render counter
    /// and the update counter count their seconds, and that of the last
    /// clock reading whose time went into the backlog.
    pub closed spec fn instants(&self) -> (Instant, Instant, Instant) {
        (self.rps.started(), self.ups.started(), self.realtime.last_reading())
    }

    /// A loop for steps of `step` nanoseconds to which nothing has happened.
    /// A step of zero is refused.
    pub fn new(step: u64) -> (made: Result<Looper, ConfigError>)
        ensures
            step == 0 ==> made == Err::<Looper, ConfigError>(ConfigError::ZeroStep),
            step > 0 ==> made.is_ok() && made.unwrap()@ == LooperView::fresh(step as nat),
    {
        match Realtime::new(step) {
            Err(e) => Err(e),
            Ok(realtime) => Ok(
                Looper {
                    phase: Phase::Ready,
                    rps: PerSecond::new(),
                    ups: PerSecond::new(),
                    realtime,
                    ticks: RealtimeIter::new(step),
                },
            ),
        }
    }

    /// Takes `event` at the present time and answers what to do next.
    ///
    /// The clocks decide in which seconds the calls are counted and how much
    /// time is added to the backlog, so the outcome is that of
    /// [`Looper::step_at`] for some reading. The time is read, and the
    /// instant of the last reading moved, only after `Continue` from the
    /// render callback; there the time added is what the backlog takes of
    /// the reading.
    pub fn step(&mut self, event: Event) -> (cmd: Command)
        requires
            old(self)@.admits(event),
            old(self)@.has_room(event),
        ensures
            exists|clock: Reading, now: Instant, nanos: u128|
                #![trigger
                    old(self)@.step(event, clock),
                    old(self)@.backlog.taking(old(self).instants().2, now, nanos)
                ]
                {
                    let taken = old(self)@.backlog.taking(old(self).instants().2, now, nanos);
                    &&& old(self)@.fits(event, clock)
                    &&& (final(self)@, cmd) == old(self)@.step(event, clock)
                    &&& event == Event::Rendered(Action::Continue) ==> clock.elapsed == taken.0
                        && final(self).instants().2 == taken.1
                },
            event != Event::Rendered(Action::Continue) ==> final(self).instants().2 == old(
                self,
            ).instants().2,
            final(self).instants().0 == old(self).instants().0,
            final(self).instants().1 == old(self).instants().1,
    {
        let elapsed: u64 = match event {
            Event::Rendered(Action::Continue) => self.realtime.lap(),
            _ => 0,
        };
        let clock = Reading {
            render_secs: self.rps.elapsed(),
            update_secs: self.ups.elapsed(),
            elapsed,
        };
        proof {
            self.lemma_room_fits(event, clock);
        }
        let cmd = self.step_at(event, clock);
        proof {
            let last = old(self).instants().2;
            let (now, nanos) = if event == Event::Rendered(Action::Continue) {
                choose|now: Instant, nanos: u128|
                    (elapsed, self.instants().2) == #[trigger] old(self)@.backlog.taking(
                        last,
                        now,
                        nanos,
                    )
            } else {
                (last, 0u128)
            };
            let taken = old(self)@.backlog.taking(last, now, nanos);
            assert((self@, cmd) == old(self)@.step(event, clock));
            assert(event == Event::Rendered(Action::Continue) ==> clock.elapsed == taken.0
                && self.instants().2 == taken.1);
        }
        cmd
    }

    /// Takes `event`, which arrives while the clocks show `clock`, and
    /// answers what to do next. The loop reads no clock and keeps its
    /// instants.
    pub fn step_at(&mut self, event: Event, clock: Reading) -> (cmd: Command)
        requires
            old(self)@.admits(event),
            old(self)@.fits(event, clock),
        ensures
            (final(self)@, cmd) == old(self)@.step(event, clock),
            final(self).instants() == old(self).instants(),
    {
        match event {
            Event::Started => self.begin(clock),
            Event::Slept => self.begin(clock),
            Event::Rendered(Action::Stop) => {
                self.phase = Phase::Stopped;
                Command::Halt
            },
            Event::Rendered(Action::Continue) => {
                self.ticks = self.realtime.advance(clock.elapsed);
                self.pull(clock)
            },
            Event::Updated(action) => {
                self.realtime.acc(self.ticks.remaining());
                match action {
                    Action::Stop => self.begin(clock),
                    Action::Continue => self.pull(clock),
                }
            },
        }
    }

    /// The numbers of a loop are held in the machine's integers: the counts
    /// and the rates of both counters in an `i32`, both backlogs in a `u64`.
    pub proof fn lemma_bounded(&self)
        ensures
            self@.render.frames <= i32::MAX,
            self@.render.fps <= i32::MAX,
            self@.update.frames <= i32::MAX,
            self@.update.fps <= i32::MAX,
            self@.backlog.acc <= u64::MAX,
            self@.ticks.acc <= u64::MAX,
    {
        self.rps.lemma_bounded();
        self.ups.lemma_bounded();
        self.realtime.lemma_bounded();
        self.ticks.lemma_bounded();
    }

    /// Where the counter that `event` may advance has room, and the backlog
    /// has room for the time that `Continue` from the render callback adds,
    /// the numbers of the loop after `event` fit the machine.
    pub proof fn lemma_room_fits(&self, event: Event, clock: Reading)
        requires
            self@.has_room(event),
            event == Event::Rendered(Action::Continue) ==> self@.backlog.acc + clock.elapsed
                <= u64::MAX,
        ensures
            self@.fits(event, clock),
    {
        self.lemma_bounded();
    }

    /// Where the loop stands.
    pub fn phase(&self) -> (phase: Phase)
        ensures
            phase == self@.phase,
    {
        self.phase
    }

    /// Whether `event` answers what the loop has asked for.
    pub fn admits(&self, event: Event) -> (yes: bool)
        ensures
            yes == self@.admits(event),
    {
        match event {
            Event::Started => self.phase == Phase::Ready,
            Event::Rendered(_) => self.phase == Phase::Rendering,
            Event::Updated(_) => self.phase == Phase::Updating,
            Event::Slept => self.phase == Phase::Sleeping,
        }
    }

    /// Whether the counter that `event` may lead to count a call can count
    /// one more.
    pub fn has_room(&self, event: Event) -> (yes: bool)
        ensures
            yes == self@.has_room(event),
    {
        match event {
            Event::Started => self.rps.frames() < i32::MAX,
            Event::Slept => self.rps.frames() < i32::MAX,
            Event::Updated(Action::Stop) => self.rps.frames() < i32::MAX,
            Event::Rendered(Action::Stop) => true,
            Event::Rendered(Action::Continue) => self.ups.frames() < i32::MAX,
            Event::Updated(Action::Continue) => !self.ticks.due() || self.ups.frames() < i32::MAX,
        }
    }

    /// The backlog that the accumulator has been told of, in nanoseconds.
    pub fn backlog(&self) -> (acc: u64)
        ensures
            acc == self@.backlog.acc,
    {
        self.realtime.backlog()
    }

    /// Begins a pass: counts the render call and asks for it.
    fn begin(&mut self, clock: Reading) -> (cmd: Command)
        requires
            old(self)@.begin(clock).0.render.frames <= i32::MAX,
        ensures
            (final(self)@, cmd) == old(self)@.begin(clock),
            final(self).instants() == old(self).instants(),
    {
        self.rps.record(clock.render_secs);
        self.phase = Phase::Rendering;
        Command::Render(self.rps.get_fps())
    }

    /// Takes the next due step and asks for its update call, or asks for
    /// the wait where none is due.
    fn pull(&mut self, clock: Reading) -> (cmd: Command)
        requires
            old(self)@.pull(clock).0.update.frames <= i32::MAX,
        ensures
            (final(self)@, cmd) == old(self)@.pull(clock),
            final(self).instants() == old(self).instants(),
    {
        match self.ticks.next() {
            Some(_) => {
                self.ups.record(clock.update_secs);
                self.phase = Phase::Updating;
                Command::Update(self.ups.get_fps())
            },
            None => {
                self.phase = Phase::Sleeping;
                Command::Sleep(self.ticks.shortfall())
            },
        }
    }
}

} // verus!
