use following_friends::{step, ShutdownAction, ShutdownEvent, ShutdownState};

#[test]
fn orderly_stop() {
    let (s, a) = step(ShutdownState::Running, ShutdownEvent::Interrupt);
    assert_eq!((s, a), (ShutdownState::Draining, ShutdownAction::StopIntake));
    let (s, a) = step(s, ShutdownEvent::DispatchersDone);
    assert_eq!((s, a), (ShutdownState::Terminating, ShutdownAction::EnqueueTerminate));
    let (s, a) = step(s, ShutdownEvent::WorkerReturned);
    assert_eq!((s, a), (ShutdownState::Stopped, ShutdownAction::Exit));
}

#[test]
fn stream_end_drains_like_an_interrupt() {
    assert_eq!(
        step(ShutdownState::Running, ShutdownEvent::StreamEnded),
        (ShutdownState::Draining, ShutdownAction::StopIntake)
    );
}

#[test]
fn second_interrupt_aborts() {
    assert_eq!(
        step(ShutdownState::Draining, ShutdownEvent::Interrupt),
        (ShutdownState::Aborting, ShutdownAction::ForceExit)
    );
    assert_eq!(
        step(ShutdownState::Terminating, ShutdownEvent::Interrupt),
        (ShutdownState::Aborting, ShutdownAction::ForceExit)
    );
}

#[test]
fn other_events_change_nothing() {
    assert_eq!(
        step(ShutdownState::Running, ShutdownEvent::DispatchersDone),
        (ShutdownState::Running, ShutdownAction::Continue)
    );
    assert_eq!(
        step(ShutdownState::Terminating, ShutdownEvent::DispatchersDone),
        (ShutdownState::Terminating, ShutdownAction::Continue)
    );
    assert_eq!(
        step(ShutdownState::Stopped, ShutdownEvent::Interrupt),
        (ShutdownState::Stopped, ShutdownAction::Continue)
    );
    assert_eq!(
        step(ShutdownState::Aborting, ShutdownEvent::WorkerReturned),
        (ShutdownState::Aborting, ShutdownAction::Continue)
    );
}
