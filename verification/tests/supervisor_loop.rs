use shrink_ray::supervisor::ExitInfo;
use shrink_ray::supervisor::ForwardOutcome;
use shrink_ray::supervisor::Supervisor;
use shrink_ray::supervisor::SupervisorAction;
use shrink_ray::supervisor::SupervisorEvent;

fn exit_ok() -> ExitInfo {
    ExitInfo { success: true, code: Some(0) }
}

fn exit_fail() -> ExitInfo {
    ExitInfo { success: false, code: Some(1) }
}

#[test]
fn plain_exit_is_not_cancelled() {
    let mut s = Supervisor::new();
    match s.step(SupervisorEvent::ChildExited(exit_ok())) {
        SupervisorAction::Finish(outcome) => {
            assert!(!outcome.cancelled);
            assert!(outcome.exit.success);
        }
        _ => panic!("exit must finish the loop"),
    }
}

#[test]
fn ticks_advance_and_wrap_the_frame() {
    let mut s = Supervisor::new();
    let mut frames = Vec::new();
    for _ in 0..7 {
        match s.step(SupervisorEvent::Tick) {
            SupervisorAction::Render { cancelling, frame } => {
                assert!(!cancelling);
                frames.push(frame);
            }
            _ => panic!("a tick renders"),
        }
    }
    assert_eq!(frames, vec![1, 2, 3, 4, 5, 0, 1]);
}

#[test]
fn output_lines_are_annotated_in_order() {
    let mut s = Supervisor::new();
    match s.step(SupervisorEvent::StderrLine(String::from("pass 1/2"))) {
        SupervisorAction::Annotate { line, cancelling, .. } => {
            assert_eq!(line, "pass 1/2");
            assert!(!cancelling);
        }
        _ => panic!("a line annotates"),
    }
    match s.step(SupervisorEvent::StdoutLine(String::from("frame=5"))) {
        SupervisorAction::Annotate { line, .. } => assert_eq!(line, "frame=5"),
        _ => panic!("a line annotates"),
    }
}

#[test]
fn cancel_before_exit_wins_over_any_status() {
    // The operator cancels; the interrupt is forwarded; late output is
    // still drained; and the eventual exit reports cancelled even though
    // the child claims success.
    let mut s = Supervisor::new();
    assert!(matches!(
        s.step(SupervisorEvent::CancelSignal { child_alive: true }),
        SupervisorAction::Forward
    ));
    assert!(matches!(
        s.step(SupervisorEvent::Forwarded(ForwardOutcome::Delivered)),
        SupervisorAction::Continue
    ));
    match s.step(SupervisorEvent::StderrLine(String::from("late line"))) {
        SupervisorAction::Annotate { line, cancelling, .. } => {
            assert_eq!(line, "late line");
            assert!(cancelling);
        }
        _ => panic!("late output is drained"),
    }
    match s.step(SupervisorEvent::ChildExited(exit_ok())) {
        SupervisorAction::Finish(outcome) => {
            assert!(outcome.cancelled);
            assert!(outcome.exit.success);
        }
        _ => panic!("exit must finish the loop"),
    }
}

#[test]
fn cancel_before_failing_exit_also_wins() {
    let mut s = Supervisor::new();
    let _ = s.step(SupervisorEvent::CancelSignal { child_alive: true });
    match s.step(SupervisorEvent::ChildExited(exit_fail())) {
        SupervisorAction::Finish(outcome) => {
            assert!(outcome.cancelled);
            assert!(!outcome.exit.success);
        }
        _ => panic!("exit must finish the loop"),
    }
}

#[test]
fn second_cancel_is_idempotent() {
    let mut s = Supervisor::new();
    assert!(matches!(
        s.step(SupervisorEvent::CancelSignal { child_alive: true }),
        SupervisorAction::Forward
    ));
    assert!(matches!(
        s.step(SupervisorEvent::CancelSignal { child_alive: true }),
        SupervisorAction::Forward
    ));
    match s.step(SupervisorEvent::ChildExited(exit_ok())) {
        SupervisorAction::Finish(outcome) => assert!(outcome.cancelled),
        _ => panic!("exit must finish the loop"),
    }
}

#[test]
fn cancel_with_no_child_is_ignored() {
    let mut s = Supervisor::new();
    assert!(matches!(
        s.step(SupervisorEvent::CancelSignal { child_alive: false }),
        SupervisorAction::Continue
    ));
    match s.step(SupervisorEvent::ChildExited(exit_ok())) {
        SupervisorAction::Finish(outcome) => assert!(!outcome.cancelled),
        _ => panic!("exit must finish the loop"),
    }
}

#[test]
fn vanished_child_keeps_looping() {
    let mut s = Supervisor::new();
    let _ = s.step(SupervisorEvent::CancelSignal { child_alive: true });
    assert!(matches!(
        s.step(SupervisorEvent::Forwarded(ForwardOutcome::NoSuchProcess)),
        SupervisorAction::Continue
    ));
}

#[test]
fn forwarding_failure_aborts() {
    let mut s = Supervisor::new();
    let _ = s.step(SupervisorEvent::CancelSignal { child_alive: true });
    match s.step(SupervisorEvent::Forwarded(ForwardOutcome::Failed(13))) {
        SupervisorAction::Abort { errno } => assert_eq!(errno, 13),
        _ => panic!("another delivery failure aborts the loop"),
    }
}
