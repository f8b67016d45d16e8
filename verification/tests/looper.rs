use looper::Action;
use looper::Command;
use looper::ConfigError;
use looper::Event;
use looper::Looper;
use looper::Phase;
use looper::Reading;
use std::time::Duration;
use std::time::Instant;

const SECOND: u64 = 1_000_000_000;

/// The step of a target frequency, in nanoseconds.
fn step_of(fps: f32) -> u64 {
    (1.0 / fps * 1_000_000_000.0) as u64
}

/// Runs the loop on a clock that only moves while the loop waits: every
/// wait takes exactly as long as asked, and the callbacks take no time.
fn run<R, U>(fps: f32, mut render: R, mut update: U)
where
    R: FnMut(i32) -> Action,
    U: FnMut(i32) -> Action,
{
    let mut looper = Looper::new(step_of(fps)).unwrap();
    let mut now: u64 = 0;
    let mut taken: u64 = 0;
    let mut event = Event::Started;
    loop {
        let clock = Reading { render_secs: now / SECOND, update_secs: now / SECOND, elapsed: now - taken };
        if event == Event::Rendered(Action::Continue) {
            taken = now;
        }
        assert!(looper.admits(event));
        assert!(looper.has_room(event));
        match looper.step_at(event, clock) {
            Command::Render(rate) => event = Event::Rendered(render(rate)),
            Command::Update(rate) => event = Event::Updated(update(rate)),
            Command::Sleep(nanos) => {
                now += nanos;
                event = Event::Slept;
            }
            Command::Halt => break,
        }
    }
    assert_eq!(looper.phase(), Phase::Stopped);
}

fn at(secs: u64, elapsed: u64) -> Reading {
    Reading { render_secs: secs, update_secs: secs, elapsed }
}

#[test]
fn it_works() {
    let mut state = 1;
    let render = move |_| {
        if state != 0 {
            state -= 1;
            Action::Continue
        } else {
            Action::Stop
        }
    };

    let update = |_| Action::Continue;

    run(60.0, render, update);
}

#[test]
fn it_renders() {
    let mut state = 1;
    let mut rendered = 0;

    {
        let render = |_| {
            if state != 0 {
                rendered += 1;
                state -= 1;
                Action::Continue
            } else {
                Action::Stop
            }
        };

        let update = |_| Action::Continue;
        run(60.0, render, update);
    }

    assert_eq!(rendered, 1);
}

#[test]
fn it_updates() {
    let mut state = 2;
    let mut updated = 0;

    {
        let render = |_fps| {
            if state != 0 {
                state -= 1;
                Action::Continue
            } else {
                Action::Stop
            }
        };

        let update = |_| {
            updated += 1;
            Action::Continue
        };

        run(60.0, render, update);
    }

    assert_eq!(updated, 1);
}

#[test]
fn it_renders_and_updates() {
    let mut state = 60;
    let mut rendered = 0;
    let mut updated = 0;

    {
        let render = |_| {
            if state != 0 {
                rendered += 1;
                state -= 1;
                Action::Continue
            } else {
                Action::Stop
            }
        };

        let update = |_| {
            updated += 1;
            Action::Continue
        };

        run(60.0, render, update);
    }

    assert_eq!(rendered, 60);
    assert_eq!(updated, 59);
}

#[test]
fn it_rps() {
    let mut state = 61;
    let mut rps = 0;

    {
        let render = |fps| {
            if state != 0 {
                rps = fps;
                state -= 1;
                Action::Continue
            } else {
                Action::Stop
            }
        };

        let update = |_| Action::Continue;

        run(60.0, render, update);
    }

    assert_eq!(rps, 60);
}

#[test]
fn it_ups() {
    let mut state = 61;
    let mut ups = 0;

    {
        let render = |_fps| {
            if state != 0 {
                state -= 1;
                Action::Continue
            } else {
                Action::Stop
            }
        };

        let update = |fps| {
            ups = fps;
            Action::Continue
        };

        run(60.0, render, update);
    }

    assert_eq!(ups, 59);
}

#[test]
fn a_loop_with_a_step_of_zero_is_refused() {
    assert!(matches!(Looper::new(0), Err(ConfigError::ZeroStep)));
}

#[test]
fn a_new_loop_waits_to_be_started() {
    let looper = Looper::new(10).unwrap();
    assert_eq!(looper.phase(), Phase::Ready);
    assert_eq!(looper.backlog(), 0);
    assert!(looper.admits(Event::Started));
    assert!(!looper.admits(Event::Slept));
    assert!(!looper.admits(Event::Rendered(Action::Continue)));
    assert!(!looper.admits(Event::Updated(Action::Continue)));
    assert!(looper.has_room(Event::Started));
    assert!(looper.has_room(Event::Rendered(Action::Stop)));
}

#[test]
fn render_that_stops_at_once_is_called_once_and_update_never() {
    let mut renders = 0;
    let mut updates = 0;
    run(
        60.0,
        |_| {
            renders += 1;
            Action::Stop
        },
        |_| {
            updates += 1;
            Action::Continue
        },
    );
    assert_eq!(renders, 1);
    assert_eq!(updates, 0);
}

#[test]
fn render_is_called_once_more_than_it_continued() {
    for k in [0, 1, 2, 17, 100] {
        let mut left = k;
        let mut renders = 0;
        let mut updates = 0;
        run(
            60.0,
            |_| {
                renders += 1;
                if left == 0 {
                    Action::Stop
                } else {
                    left -= 1;
                    Action::Continue
                }
            },
            |_| {
                updates += 1;
                // Every third update ends its pass early.
                if updates % 3 == 0 {
                    Action::Stop
                } else {
                    Action::Continue
                }
            },
        );
        assert_eq!(renders, k + 1);
    }
}

#[test]
fn stop_from_render_halts_without_a_further_update() {
    let mut looper = Looper::new(10).unwrap();
    assert_eq!(looper.step_at(Event::Started, at(0, 0)), Command::Render(0));
    assert_eq!(looper.step_at(Event::Rendered(Action::Continue), at(0, 30)), Command::Update(0));
    assert_eq!(looper.step_at(Event::Updated(Action::Stop), at(0, 0)), Command::Render(0));
    assert_eq!(looper.step_at(Event::Rendered(Action::Stop), at(0, 50)), Command::Halt);
    assert_eq!(looper.phase(), Phase::Stopped);
    assert_eq!(looper.backlog(), 20);
    assert!(!looper.admits(Event::Started));
    assert!(!looper.admits(Event::Slept));
    assert!(!looper.admits(Event::Rendered(Action::Continue)));
    assert!(!looper.admits(Event::Updated(Action::Continue)));
}

#[test]
fn a_burst_of_three_due_steps_gives_three_updates() {
    let mut looper = Looper::new(10).unwrap();
    assert_eq!(looper.step_at(Event::Started, at(0, 0)), Command::Render(0));
    assert_eq!(looper.phase(), Phase::Rendering);
    assert_eq!(looper.step_at(Event::Rendered(Action::Continue), at(0, 34)), Command::Update(0));
    assert_eq!(looper.phase(), Phase::Updating);
    assert_eq!(looper.backlog(), 34);
    assert_eq!(looper.step_at(Event::Updated(Action::Continue), at(0, 0)), Command::Update(0));
    assert_eq!(looper.backlog(), 24);
    assert_eq!(looper.step_at(Event::Updated(Action::Continue), at(0, 0)), Command::Update(0));
    assert_eq!(looper.backlog(), 14);
    assert_eq!(looper.step_at(Event::Updated(Action::Continue), at(0, 0)), Command::Sleep(6));
    assert_eq!(looper.phase(), Phase::Sleeping);
    assert_eq!(looper.backlog(), 4);
    assert_eq!(looper.step_at(Event::Slept, at(0, 6)), Command::Render(0));
    assert_eq!(looper.step_at(Event::Rendered(Action::Continue), at(0, 6)), Command::Update(0));
    assert_eq!(looper.step_at(Event::Updated(Action::Continue), at(0, 0)), Command::Sleep(10));
    assert_eq!(looper.backlog(), 0);
}

#[test]
fn stop_from_update_ends_the_burst_and_the_loop_goes_on() {
    let mut looper = Looper::new(10).unwrap();
    assert_eq!(looper.step_at(Event::Started, at(0, 0)), Command::Render(0));
    // Three steps are due.
    assert_eq!(looper.step_at(Event::Rendered(Action::Continue), at(0, 34)), Command::Update(0));
    // The first update stops: no second update, the next render instead.
    assert_eq!(looper.step_at(Event::Updated(Action::Stop), at(0, 0)), Command::Render(0));
    assert_eq!(looper.phase(), Phase::Rendering);
    // The two steps that were not taken are still in the backlog.
    assert_eq!(looper.backlog(), 24);
    assert_eq!(looper.step_at(Event::Rendered(Action::Continue), at(0, 0)), Command::Update(0));
    assert_eq!(looper.step_at(Event::Updated(Action::Continue), at(0, 0)), Command::Update(0));
    assert_eq!(looper.step_at(Event::Updated(Action::Continue), at(0, 0)), Command::Sleep(6));
    assert_eq!(looper.backlog(), 4);
}

#[test]
fn stop_from_update_in_a_burst_costs_only_that_pass() {
    let mut renders = 0;
    let mut updates = 0;
    let mut looper = Looper::new(10).unwrap();
    let mut event = Event::Started;
    let mut first = true;
    loop {
        // The first pass finds three steps due, the later ones none.
        let elapsed = if first && event == Event::Rendered(Action::Continue) { 30 } else { 0 };
        if event == Event::Rendered(Action::Continue) {
            first = false;
        }
        match looper.step_at(event, at(0, elapsed)) {
            Command::Render(_) => {
                renders += 1;
                event = Event::Rendered(if renders == 3 { Action::Stop } else { Action::Continue });
            }
            Command::Update(_) => {
                updates += 1;
                event = Event::Updated(if updates == 1 { Action::Stop } else { Action::Continue });
            }
            Command::Sleep(_) => event = Event::Slept,
            Command::Halt => break,
        }
        if renders == 2 && updates == 1 && event == Event::Rendered(Action::Continue) {
            // Only one update ran in the pass that was stopped.
            assert_eq!(looper.backlog(), 20);
        }
    }
    assert_eq!(renders, 3);
    assert_eq!(updates, 3);
}

#[test]
fn the_rates_are_those_of_the_last_full_second() {
    let mut looper = Looper::new(SECOND / 4).unwrap();
    assert_eq!(looper.step_at(Event::Started, at(0, 0)), Command::Render(0));
    let mut now: u64 = 0;
    let mut event = Event::Rendered(Action::Continue);
    let mut seen = Vec::new();
    for _ in 0..40 {
        let elapsed = if event == Event::Rendered(Action::Continue) { SECOND / 4 } else { 0 };
        match looper.step_at(event, at(now / SECOND, elapsed)) {
            Command::Render(rate) => {
                seen.push((now / SECOND, 'r', rate));
                event = Event::Rendered(Action::Continue);
            }
            Command::Update(rate) => {
                seen.push((now / SECOND, 'u', rate));
                event = Event::Updated(Action::Continue);
            }
            Command::Sleep(nanos) => {
                assert_eq!(nanos, SECOND / 4);
                now += nanos;
                event = Event::Slept;
            }
            Command::Halt => unreachable!(),
        }
    }
    // Four passes fall into every second.
    assert!(seen.contains(&(0, 'r', 0)));
    assert!(seen.contains(&(0, 'u', 0)));
    assert!(seen.contains(&(1, 'r', 4)));
    assert!(seen.contains(&(1, 'u', 4)));
    assert!(seen.contains(&(2, 'r', 4)));
    assert!(seen.contains(&(2, 'u', 4)));
    assert!(!seen.contains(&(1, 'r', 0)));
    assert!(!seen.contains(&(2, 'u', 0)));
}

#[test]
fn updates_match_the_time_within_one_step() {
    let step: u64 = 16_666_668;
    let mut looper = Looper::new(step).unwrap();
    let mut total: u64 = 0;
    let mut updates: u64 = 0;
    let mut passes: u64 = 0;
    let mut event = Event::Started;
    while passes < 300 {
        let elapsed = if event == Event::Rendered(Action::Continue) {
            passes += 1;
            500_000 + (passes * 9_973_111) % 70_000_000
        } else {
            0
        };
        if event == Event::Rendered(Action::Continue) {
            total += elapsed;
        }
        match looper.step_at(event, at(0, elapsed)) {
            Command::Render(_) => event = Event::Rendered(Action::Continue),
            Command::Update(_) => {
                updates += 1;
                event = Event::Updated(Action::Continue);
            }
            Command::Sleep(nanos) => {
                assert_eq!(updates, total / step);
                assert_eq!(looper.backlog(), total % step);
                assert_eq!(nanos, step - total % step);
                event = Event::Slept;
            }
            Command::Halt => unreachable!(),
        }
        assert!(updates * step <= total);
    }
}

#[test]
fn step_reads_the_clock() {
    let hour: u64 = 3_600_000_000_000;
    let mut looper = Looper::new(hour).unwrap();
    assert_eq!(looper.step(Event::Started), Command::Render(0));
    let begun = Instant::now();
    while begun.elapsed() < Duration::from_millis(2) {
        std::hint::spin_loop();
    }
    match looper.step(Event::Rendered(Action::Continue)) {
        Command::Sleep(nanos) => {
            assert!(nanos <= hour - 2_000_000);
            assert_eq!(looper.backlog(), hour - nanos);
        }
        other => panic!("no step can be due yet, but the loop asks for {:?}", other),
    }
    assert_eq!(looper.step(Event::Slept), Command::Render(0));
    assert_eq!(looper.step(Event::Rendered(Action::Stop)), Command::Halt);
    assert_eq!(looper.phase(), Phase::Stopped);
}

#[test]
fn step_finds_updates_due_once_the_time_has_passed() {
    let mut looper = Looper::new(1_000_000).unwrap();
    assert_eq!(looper.step(Event::Started), Command::Render(0));
    let begun = Instant::now();
    while begun.elapsed() < Duration::from_millis(3) {
        std::hint::spin_loop();
    }
    assert_eq!(looper.step(Event::Rendered(Action::Continue)), Command::Update(0));
    let before = looper.backlog();
    assert!(before >= 3_000_000);
    assert_eq!(looper.step(Event::Updated(Action::Continue)), Command::Update(0));
    assert_eq!(looper.backlog(), before - 1_000_000);
    assert_eq!(looper.step(Event::Updated(Action::Stop)), Command::Render(0));
    assert_eq!(looper.backlog(), before - 2_000_000);
    assert_eq!(looper.step(Event::Rendered(Action::Stop)), Command::Halt);
}

#[test]
fn stop_from_render_needs_no_room_in_a_counter() {
    let mut looper = Looper::new(10).unwrap();
    assert_eq!(looper.step_at(Event::Started, at(0, 0)), Command::Render(0));
    for event in [
        Event::Started,
        Event::Slept,
        Event::Rendered(Action::Continue),
        Event::Rendered(Action::Stop),
        Event::Updated(Action::Continue),
        Event::Updated(Action::Stop),
    ] {
        assert!(looper.has_room(event));
    }
    assert_eq!(looper.step_at(Event::Rendered(Action::Stop), at(0, 0)), Command::Halt);
    assert!(looper.has_room(Event::Rendered(Action::Stop)));
}
