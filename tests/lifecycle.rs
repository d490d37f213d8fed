use app_lifecycle::lifecycle::{close_notice, step, Action, Event, Fatal, Phase, Step};

fn run(start: Phase, events: &[Event]) -> (Phase, Vec<Action>) {
    let mut phase = start;
    let mut seen = Vec::new();
    for &e in events {
        let s = step(phase, e);
        phase = s.next;
        if s.action != Action::Nothing {
            seen.push(s.action);
        }
    }
    (phase, seen)
}

const ALL_EVENTS: [Event; 5] = [
    Event::LoopStarted,
    Event::LoopFailed,
    Event::CloseInvoked,
    Event::CloseDone,
    Event::CloseRefused,
];

#[test]
fn startup_runs_the_loop() {
    assert_eq!(
        step(Phase::Starting, Event::LoopStarted),
        Step { next: Phase::Running, action: Action::Nothing }
    );
}

#[test]
fn startup_failure_is_fatal() {
    assert_eq!(
        step(Phase::Starting, Event::LoopFailed),
        Step {
            next: Phase::Failed(Fatal::RunFailed),
            action: Action::Abort(Fatal::RunFailed),
        }
    );
}

#[test]
fn startup_ends_running_or_failed() {
    for e in [Event::LoopStarted, Event::LoopFailed] {
        let next = step(Phase::Starting, e).next;
        assert!(matches!(next, Phase::Running | Phase::Failed(_)));
    }
}

#[test]
fn close_command_on_live_window_asks_to_close() {
    assert_eq!(
        step(Phase::Running, Event::CloseInvoked),
        Step { next: Phase::Closing, action: Action::Close }
    );
}

#[test]
fn window_closing_ends_in_closed() {
    assert_eq!(
        step(Phase::Closing, Event::CloseDone),
        Step { next: Phase::Closed, action: Action::Nothing }
    );
}

#[test]
fn window_refusing_to_close_is_fatal() {
    assert_eq!(
        step(Phase::Closing, Event::CloseRefused),
        Step {
            next: Phase::Failed(Fatal::CloseFailed),
            action: Action::Abort(Fatal::CloseFailed),
        }
    );
}

#[test]
fn loop_failure_while_running_is_fatal() {
    assert_eq!(
        step(Phase::Running, Event::LoopFailed),
        Step {
            next: Phase::Failed(Fatal::RunFailed),
            action: Action::Abort(Fatal::RunFailed),
        }
    );
}

#[test]
fn close_before_start_does_nothing() {
    assert_eq!(
        step(Phase::Starting, Event::CloseInvoked),
        Step { next: Phase::Starting, action: Action::Nothing }
    );
}

#[test]
fn second_invocation_while_closing_does_nothing() {
    assert_eq!(
        step(Phase::Closing, Event::CloseInvoked),
        Step { next: Phase::Closing, action: Action::Nothing }
    );
}

#[test]
fn terminal_phases_ignore_every_event() {
    let terminal = [
        Phase::Closed,
        Phase::Failed(Fatal::CloseFailed),
        Phase::Failed(Fatal::RunFailed),
    ];
    for p in terminal {
        for e in ALL_EVENTS {
            assert_eq!(step(p, e), Step { next: p, action: Action::Nothing });
        }
    }
}

#[test]
fn close_on_live_window_has_no_third_outcome() {
    let (done, done_effects) = run(Phase::Running, &[Event::CloseInvoked, Event::CloseDone]);
    assert_eq!(done, Phase::Closed);
    assert_eq!(done_effects, vec![Action::Close]);
    let (refused, refused_effects) =
        run(Phase::Running, &[Event::CloseInvoked, Event::CloseRefused]);
    assert_eq!(refused, Phase::Failed(Fatal::CloseFailed));
    assert_eq!(
        refused_effects,
        vec![Action::Close, Action::Abort(Fatal::CloseFailed)]
    );
}

#[test]
fn repeated_close_matches_single_close() {
    for answer in [Event::CloseDone, Event::CloseRefused] {
        let single = run(Phase::Running, &[Event::CloseInvoked, answer]);
        let repeated = run(
            Phase::Running,
            &[
                Event::CloseInvoked,
                Event::CloseInvoked,
                Event::CloseInvoked,
                answer,
                Event::CloseInvoked,
                Event::CloseDone,
                Event::CloseInvoked,
                Event::CloseRefused,
                Event::LoopFailed,
            ],
        );
        assert_eq!(repeated, single);
    }
}

#[test]
fn start_then_close_scenario() {
    let (phase, effects) = run(
        Phase::Starting,
        &[Event::LoopStarted, Event::CloseInvoked, Event::CloseDone],
    );
    assert_eq!(phase, Phase::Closed);
    assert_eq!(effects, vec![Action::Close]);
}

#[test]
fn closing_notice_text() {
    assert_eq!(close_notice(), "Closing application...");
}

#[test]
fn fatal_messages() {
    assert_eq!(Fatal::CloseFailed.message(), "Failed to close window");
    assert_eq!(
        Fatal::RunFailed.message(),
        "error while running tauri application"
    );
}
