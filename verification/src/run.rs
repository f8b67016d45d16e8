//! Whole runs of the loop, and what holds of every one of them.
//!
//! A run is the sequence of events that a loop has taken, each with the
//! reading of the clocks on its arrival. The functions here count what the
//! loop asked for along a run; the laws relate the counts to each other and
//! to the time that has passed.

use crate::action::Action;
use crate::looper::Command;
use crate::looper::Event;
use crate::looper::LooperView;
use crate::looper::Phase;
use crate::looper::Reading;
use vstd::prelude::*;

verus! {

/// One event of a run, with what the clocks showed when it arrived.
pub struct Turn {
    /// What the caller reported.
    pub event: Event,
    /// What the clocks showed at that moment.
    pub clock: Reading,
}

/// The loop after it has taken `turns`, starting as `start`.
pub open spec fn run(start: LooperView, turns: Seq<Turn>) -> LooperView
    decreases turns.len(),
{
    if turns.len() == 0 {
        start
    } else {
        run(start, turns.drop_last()).step(turns.last().event, turns.last().clock).0
    }
}

/// What the loop asked for in answer to the last of `turns`.
pub open spec fn last_command(start: LooperView, turns: Seq<Turn>) -> Command
    recommends
        turns.len() > 0,
{
    run(start, turns.drop_last()).step(turns.last().event, turns.last().clock).1
}

/// Whether every event of `turns` answers what the loop had asked for when
/// the event arrived.
pub open spec fn accepts(start: LooperView, turns: Seq<Turn>) -> bool
    decreases turns.len(),
{
    turns.len() == 0 || (accepts(start, turns.drop_last()) && run(
        start,
        turns.drop_last(),
    ).admits(turns.last().event))
}

/// How often the loop asked for the render callback along `turns`.
pub open spec fn render_calls(start: LooperView, turns: Seq<Turn>) -> nat
    decreases turns.len(),
{
    if turns.len() == 0 {
        0
    } else {
        render_calls(start, turns.drop_last()) + if last_command(start, turns) is Render {
            1nat
        } else {
            0nat
        }
    }
}

/// How often the loop asked for the update callback along `turns`.
pub open spec fn update_calls(start: LooperView, turns: Seq<Turn>) -> nat
    decreases turns.len(),
{
    if turns.len() == 0 {
        0
    } else {
        update_calls(start, turns.drop_last()) + if last_command(start, turns) is Update {
            1nat
        } else {
            0nat
        }
    }
}

/// How often `event` occurs in `turns`.
pub open spec fn occurrences(turns: Seq<Turn>, event: Event) -> nat
    decreases turns.len(),
{
    if turns.len() == 0 {
        0
    } else {
        occurrences(turns.drop_last(), event) + if turns.last().event == event {
            1nat
        } else {
            0nat
        }
    }
}

/// The time that the loop has added to its backlog along `turns`: what the
/// clock showed as elapsed whenever the render callback returned `Continue`.
pub open spec fn time_taken(turns: Seq<Turn>) -> nat
    decreases turns.len(),
{
    if turns.len() == 0 {
        0
    } else {
        time_taken(turns.drop_last()) + if turns.last().event == Event::Rendered(
            Action::Continue,
        ) {
            turns.last().clock.elapsed as nat
        } else {
            0nat
        }
    }
}

/// What holds of a loop after any run from its beginning; the laws below are
/// read off it.
spec fn settled(step: nat, turns: Seq<Turn>) -> bool {
    let start = LooperView::fresh(step);
    let end = run(start, turns);
    let continues = occurrences(turns, Event::Rendered(Action::Continue));
    let stops = occurrences(turns, Event::Rendered(Action::Stop));
    &&& end.backlog.step == step
    &&& end.ticks.step == step
    &&& render_calls(start, turns) == continues + stops + if end.phase == Phase::Rendering {
        1nat
    } else {
        0nat
    }
    &&& stops == if end.phase == Phase::Stopped {
        1nat
    } else {
        0nat
    }
    &&& update_calls(start, turns) * step + end.ticks.acc == time_taken(turns)
    &&& end.phase != Phase::Updating ==> end.backlog.acc == end.ticks.acc
    &&& end.phase == Phase::Updating ==> end.backlog.acc == end.ticks.acc + step
    &&& end.phase == Phase::Sleeping ==> end.ticks.acc < step
    &&& end.phase == Phase::Ready ==> turns.len() == 0
    &&& step > 0 && occurrences(turns, Event::Updated(Action::Stop)) == 0 && end.phase
        != Phase::Updating ==> end.ticks.acc < step
}

proof fn lemma_settled(step: nat, turns: Seq<Turn>)
    requires
        accepts(LooperView::fresh(step), turns),
    ensures
        settled(step, turns),
    decreases turns.len(),
{
    let start = LooperView::fresh(step);
    let calls = update_calls(start, turns);
    if turns.len() == 0 {
        assert(calls * step == 0) by (nonlinear_arith)
            requires
                calls == 0,
        ;
    } else {
        lemma_settled(step, turns.drop_last());
        let before = update_calls(start, turns.drop_last());
        if last_command(start, turns) is Update {
            assert(calls * step == before * step + step) by (nonlinear_arith)
                requires
                    calls == before + 1,
            ;
        } else {
            assert(calls == before);
        }
    }
}

/// The render callback is asked for once for each time that it returned
/// `Continue`, and once more for the call that returned `Stop`, whatever
/// the update callback returned in between. It returns `Stop` at most
/// once, and the loop has stopped just when it did. While the loop waits
/// for the render callback, that call is the one more.
pub proof fn lemma_render_calls(step: nat, turns: Seq<Turn>)
    requires
        accepts(LooperView::fresh(step), turns),
    ensures
        run(LooperView::fresh(step), turns).phase == Phase::Stopped <==> occurrences(
            turns,
            Event::Rendered(Action::Stop),
        ) == 1,
        occurrences(turns, Event::Rendered(Action::Stop)) <= 1,
        run(LooperView::fresh(step), turns).phase == Phase::Stopped ==> render_calls(
            LooperView::fresh(step),
            turns,
        ) == occurrences(turns, Event::Rendered(Action::Continue)) + 1,
        run(LooperView::fresh(step), turns).phase == Phase::Rendering ==> render_calls(
            LooperView::fresh(step),
            turns,
        ) == occurrences(turns, Event::Rendered(Action::Continue)) + 1,
        run(LooperView::fresh(step), turns).phase != Phase::Stopped && run(
            LooperView::fresh(step),
            turns,
        ).phase != Phase::Rendering ==> render_calls(LooperView::fresh(step), turns)
            == occurrences(turns, Event::Rendered(Action::Continue)),
{
    lemma_settled(step, turns);
}

/// No time is lost and none is made up: the steps for which the update
/// callback was asked, and what is left in the backlog, add up to the time
/// that was taken. So the number of update calls never runs ahead of the
/// time, and whenever the loop waits for the next step, it is the number
/// of whole steps that the time holds.
pub proof fn lemma_update_calls_match_time(step: nat, turns: Seq<Turn>)
    requires
        step > 0,
        accepts(LooperView::fresh(step), turns),
    ensures
        update_calls(LooperView::fresh(step), turns) * step + run(
            LooperView::fresh(step),
            turns,
        ).ticks.acc == time_taken(turns),
        update_calls(LooperView::fresh(step), turns) * step <= time_taken(turns),
        run(LooperView::fresh(step), turns).phase == Phase::Sleeping ==> update_calls(
            LooperView::fresh(step),
            turns,
        ) == time_taken(turns) / step,
{
    lemma_settled(step, turns);
    if run(LooperView::fresh(step), turns).phase == Phase::Sleeping {
        vstd::arithmetic::div_mod::lemma_fundamental_div_mod_converse(
            time_taken(turns) as int,
            step as int,
            update_calls(LooperView::fresh(step), turns) as int,
            run(LooperView::fresh(step), turns).ticks.acc as int,
        );
    }
}

/// As long as the update callback never returns `Stop`, the update calls
/// keep up with the time: between any two of them, and when the loop has
/// stopped, their number is the number of whole steps that the time taken
/// holds, so that it is never more than one step behind.
pub proof fn lemma_update_calls_keep_up(step: nat, turns: Seq<Turn>)
    requires
        step > 0,
        accepts(LooperView::fresh(step), turns),
        occurrences(turns, Event::Updated(Action::Stop)) == 0,
        run(LooperView::fresh(step), turns).phase != Phase::Updating,
    ensures
        update_calls(LooperView::fresh(step), turns) == time_taken(turns) / step,
        update_calls(LooperView::fresh(step), turns) * step <= time_taken(turns),
        time_taken(turns) < (update_calls(LooperView::fresh(step), turns) + 1) * step,
{
    lemma_settled(step, turns);
    let calls = update_calls(LooperView::fresh(step), turns);
    vstd::arithmetic::div_mod::lemma_fundamental_div_mod_converse(
        time_taken(turns) as int,
        step as int,
        calls as int,
        run(LooperView::fresh(step), turns).ticks.acc as int,
    );
    assert((calls + 1) * step == calls * step + step) by (nonlinear_arith);
}

/// Whenever the due steps of a pass have been gone through, the backlog
/// that the accumulator was told of is what the update calls have left of
/// the time taken. Where the pass ended for want of a due step, that is
/// less than one step; where the update callback ended it, it is what was
/// there when the callback returned.
pub proof fn lemma_backlog_between_passes(step: nat, turns: Seq<Turn>)
    requires
        accepts(LooperView::fresh(step), turns),
    ensures
        run(LooperView::fresh(step), turns).phase != Phase::Updating ==> run(
            LooperView::fresh(step),
            turns,
        ).backlog.acc + update_calls(LooperView::fresh(step), turns) * step == time_taken(turns),
        run(LooperView::fresh(step), turns).phase == Phase::Sleeping ==> run(
            LooperView::fresh(step),
            turns,
        ).backlog.acc < step,
{
    lemma_settled(step, turns);
}

} // verus!
