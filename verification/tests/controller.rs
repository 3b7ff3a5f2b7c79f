use autoclicker::config::{IntervalConfig, Mode};
use autoclicker::controller::{Launch, RunController, RunState, Status, Transition};
use autoclicker::entropy::RandomSource;
use autoclicker::log::EventLog;
use autoclicker::runner::{Command, Runner};

fn idle(run: u64) -> RunState {
    RunState { regular_running: false, jitter_running: false, run }
}

fn only(mode: Mode, run: u64) -> RunState {
    match mode {
        Mode::Regular => RunState { regular_running: true, jitter_running: false, run },
        Mode::Jitter => RunState { regular_running: false, jitter_running: true, run },
    }
}

fn started(mode: Mode, run: u64) -> Transition {
    let line = match mode {
        Mode::Regular => "Regular mode started.",
        Mode::Jitter => "Jitter mode started.",
    };
    Transition { launch: Some(Launch { mode, run }), lines: vec![String::from(line)] }
}

fn stopped(mode: Mode) -> Transition {
    let line = match mode {
        Mode::Regular => "Regular mode stopped.",
        Mode::Jitter => "Jitter mode stopped.",
    };
    Transition { launch: None, lines: vec![String::from(line)] }
}

#[test]
fn a_new_controller_is_idle() {
    let controller = RunController::new();
    assert_eq!(controller.state(), idle(0));
    assert_eq!(controller.status(), Status::Idle);
    for run in [0u64, 1, u64::MAX] {
        assert!(!controller.keeps_running(Launch { mode: Mode::Regular, run }));
        assert!(!controller.keeps_running(Launch { mode: Mode::Jitter, run }));
    }
}

#[test]
fn toggle_from_idle_starts_the_selected_mode() {
    let mut controller = RunController::new();
    let transition = controller.toggle(Mode::Regular);
    assert_eq!(transition, started(Mode::Regular, 1));
    assert_eq!(controller.state(), only(Mode::Regular, 1));
    assert_eq!(controller.status(), Status::Running(Mode::Regular));
    assert!(controller.keeps_running(Launch { mode: Mode::Regular, run: 1 }));
    assert!(!controller.keeps_running(Launch { mode: Mode::Jitter, run: 1 }));
    assert!(!controller.keeps_running(Launch { mode: Mode::Regular, run: 0 }));
    assert!(!controller.keeps_running(Launch { mode: Mode::Regular, run: 2 }));

    let mut controller = RunController::new();
    let transition = controller.toggle(Mode::Jitter);
    assert_eq!(transition, started(Mode::Jitter, 1));
    assert_eq!(controller.state(), only(Mode::Jitter, 1));
    assert_eq!(controller.status(), Status::Running(Mode::Jitter));
    assert!(controller.keeps_running(Launch { mode: Mode::Jitter, run: 1 }));
    assert!(!controller.keeps_running(Launch { mode: Mode::Regular, run: 1 }));
}

#[test]
fn toggle_while_running_stops_whatever_the_selector_says() {
    for running in [Mode::Regular, Mode::Jitter] {
        for selector in [Mode::Regular, Mode::Jitter] {
            let mut controller = RunController::new();
            let launch = controller.toggle(running).launch.unwrap();
            let transition = controller.toggle(selector);
            assert_eq!(transition, stopped(running));
            assert_eq!(controller.state(), idle(1));
            assert_eq!(controller.status(), Status::Idle);
            assert!(!controller.keeps_running(launch));
        }
    }
}

#[test]
fn toggle_twice_returns_to_the_state_class() {
    for first in [Mode::Regular, Mode::Jitter] {
        for second in [Mode::Regular, Mode::Jitter] {
            for run in [0u64, 1, 41, u64::MAX - 1] {
                let (one, _) = idle(run).toggle(first);
                let (two, _) = one.toggle(second);
                assert_eq!(one, only(first, run + 1));
                assert_eq!(two, idle(run + 1));

                for mode in [Mode::Regular, Mode::Jitter] {
                    let (one, _) = only(mode, run).toggle(first);
                    let (two, _) = one.toggle(second);
                    assert_eq!(one, idle(run));
                    assert_eq!(two, only(second, run + 1));
                }
            }
        }
    }
}

#[test]
fn toggle_with_both_flags_set_stops_both() {
    let both = RunState { regular_running: true, jitter_running: true, run: 7 };
    for selector in [Mode::Regular, Mode::Jitter] {
        let (next, transition) = both.toggle(selector);
        assert_eq!(next, idle(7));
        assert_eq!(
            transition,
            Transition {
                launch: None,
                lines: vec![
                    String::from("Regular mode stopped."),
                    String::from("Jitter mode stopped."),
                ],
            }
        );
    }
}

#[test]
fn toggle_with_the_run_numbers_used_up_starts_nothing() {
    for selector in [Mode::Regular, Mode::Jitter] {
        let (next, transition) = idle(u64::MAX).toggle(selector);
        assert_eq!(next, idle(u64::MAX));
        assert_eq!(transition, Transition { launch: None, lines: Vec::new() });

        let (next, transition) = idle(u64::MAX - 1).toggle(selector);
        assert_eq!(next, only(selector, u64::MAX));
        assert_eq!(transition, started(selector, u64::MAX));

        let (next, transition) = only(selector, u64::MAX).toggle(selector);
        assert_eq!(next, idle(u64::MAX));
        assert_eq!(transition, stopped(selector));
    }
}

#[test]
fn the_two_modes_never_run_at_once() {
    let mut controller = RunController::new();
    let mut seed: u32 = 12345;
    for _ in 0..1000 {
        seed = seed.wrapping_mul(1664525).wrapping_add(1013904223);
        let selector = Mode::from_jitter_switch((seed >> 16) & 1 == 1);
        controller.toggle(selector);
        let state = controller.state();
        assert!(!(state.regular_running && state.jitter_running));
    }
}

#[test]
fn start_stop_start_of_one_mode_leaves_the_first_runner_stopped() {
    for mode in [Mode::Regular, Mode::Jitter] {
        let mut controller = RunController::new();
        let first = controller.toggle(mode).launch.unwrap();
        assert_eq!(first, Launch { mode, run: 1 });
        assert!(controller.keeps_running(first));

        assert_eq!(controller.toggle(mode), stopped(mode));
        assert!(!controller.keeps_running(first));

        let second = controller.toggle(mode).launch.unwrap();
        assert_eq!(second, Launch { mode, run: 2 });
        assert!(!controller.keeps_running(first));
        assert!(controller.keeps_running(second));

        let mut stale = Runner::start(0);
        let mut fresh = Runner::start(0);
        let config = IntervalConfig::new(1, 1, 1, 0);
        let mut source = RandomSource::new();
        let running = controller.keeps_running(first);
        assert_eq!(stale.poll(&mut source, first.mode, running, &config, 1000), Command::Exit);
        assert!(stale.is_finished());
        let running = controller.keeps_running(second);
        assert_eq!(fresh.poll(&mut source, second.mode, running, &config, 1000), Command::Fire);
    }
}

#[test]
fn at_most_one_launch_is_live_after_any_toggles() {
    let mut controller = RunController::new();
    let mut launches: Vec<Launch> = Vec::new();
    let mut stopped_before: Vec<Launch> = Vec::new();
    let mut seed: u32 = 2024;
    for _ in 0..500 {
        seed = seed.wrapping_mul(1664525).wrapping_add(1013904223);
        let selector = Mode::from_jitter_switch((seed >> 16) & 1 == 1);
        if let Some(launch) = controller.toggle(selector).launch {
            assert!(!launches.contains(&launch));
            launches.push(launch);
            assert!(controller.keeps_running(launch));
        }
        let live = launches.iter().filter(|l| controller.keeps_running(**l)).count();
        assert!(live <= 1);
        assert_eq!(live == 1, controller.status() != Status::Idle);
        for launch in &stopped_before {
            assert!(!controller.keeps_running(*launch));
        }
        for launch in &launches {
            if !controller.keeps_running(*launch) && !stopped_before.contains(launch) {
                stopped_before.push(*launch);
            }
        }
    }
    assert_eq!(launches.len(), 250);
}

#[test]
fn toggle_with_an_inverted_jitter_band_starts_and_stops_cleanly() {
    let config = IntervalConfig::new(100, 10, 5, 0);
    let mut controller = RunController::new();
    let transition = controller.toggle(Mode::Jitter);
    assert_eq!(transition, started(Mode::Jitter, 1));
    let launch = Launch { mode: Mode::Jitter, run: 1 };

    let mut source = RandomSource::new();
    let mut runner = Runner::start(0);
    let mut polls = 0;
    let mut now_ms: u128 = 0;
    loop {
        let running = controller.keeps_running(launch);
        match runner.poll(&mut source, launch.mode, running, &config, now_ms) {
            Command::Wait => {}
            Command::Exit => break,
            other => panic!("an empty band gave {:?}", other),
        }
        polls += 1;
        now_ms += 1;
        if polls == 500 {
            assert_eq!(controller.toggle(Mode::Jitter), stopped(Mode::Jitter));
        }
        assert!(polls <= 500);
    }
    assert_eq!(polls, 500);
    assert!(runner.is_finished());
    assert_eq!(controller.status(), Status::Idle);
}

#[test]
fn a_runner_stops_one_poll_after_the_toggle() {
    let config = IntervalConfig::new(50, 100, 200, 50);
    let mut controller = RunController::new();
    let mut log = EventLog::new();
    let mut source = RandomSource::new();

    let start = controller.toggle(Mode::Regular);
    let launch = start.launch.unwrap();
    let mut runner = Runner::start(0);
    log.record_all(start.lines);

    let mut now_ms: u128 = 0;
    loop {
        now_ms += 1;
        if now_ms == 211 {
            let stop = controller.toggle(Mode::Regular);
            log.record_all(stop.lines);
        }
        let running = controller.keeps_running(launch);
        match runner.poll(&mut source, launch.mode, running, &config, now_ms) {
            Command::Wait => {}
            Command::Fire => match runner.action_done(Vec::new()) {
                Command::Emit(lines) => {
                    log.record_all(lines);
                    runner.emitted(true);
                }
                other => panic!("expected lines, got {:?}", other),
            },
            Command::Exit => break,
            other => panic!("unexpected {:?}", other),
        }
    }
    assert_eq!(now_ms, 211);
    let expected: Vec<String> = vec![
        String::from("Regular mode started."),
        String::from("Click!"),
        String::from("Click!"),
        String::from("Click!"),
        String::from("Click!"),
        String::from("Regular mode stopped."),
    ];
    assert_eq!(log.lines(), &expected);
}
