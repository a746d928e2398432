use vstd::prelude::*;

verus! {

/// Phases of an orderly stop.
#[derive(Clone, Copy, Debug, PartialEq, Eq, Structural)]
pub enum ShutdownState {
    /// Updates are polled and dispatched.
    Running,
    /// Intake has stopped; in-flight dispatchers are finishing.
    Draining,
    /// `Terminate` is enqueued; waiting for the worker to return.
    Terminating,
    /// The worker has returned; the process exits cleanly.
    Stopped,
    /// A second interrupt: return at once without waiting.
    Aborting,
}

/// What the control loop observes.
#[derive(Clone, Copy, Debug, PartialEq, Eq, Structural)]
pub enum ShutdownEvent {
    /// An interrupt signal.
    Interrupt,
    /// The update source ended or failed.
    StreamEnded,
    /// Every dispatcher task has finished enqueueing.
    DispatchersDone,
    /// The worker has returned.
    WorkerReturned,
}

/// What the control loop is to do next.
#[derive(Clone, Copy, Debug, PartialEq, Eq, Structural)]
pub enum ShutdownAction {
    /// Nothing changes.
    Continue,
    /// Stop requesting updates and wait for the dispatchers.
    StopIntake,
    /// Enqueue `Terminate` and wait for the worker.
    EnqueueTerminate,
    /// Exit cleanly.
    Exit,
    /// Return at once.
    ForceExit,
}

/// The coordinator's transition table.
pub open spec fn transition(s: ShutdownState, e: ShutdownEvent) -> (ShutdownState, ShutdownAction) {
    match (s, e) {
        (ShutdownState::Running, ShutdownEvent::Interrupt) => (
            ShutdownState::Draining,
            ShutdownAction::StopIntake,
        ),
        (ShutdownState::Running, ShutdownEvent::StreamEnded) => (
            ShutdownState::Draining,
            ShutdownAction::StopIntake,
        ),
        (ShutdownState::Draining, ShutdownEvent::DispatchersDone) => (
            ShutdownState::Terminating,
            ShutdownAction::EnqueueTerminate,
        ),
        (ShutdownState::Draining, ShutdownEvent::Interrupt) => (
            ShutdownState::Aborting,
            ShutdownAction::ForceExit,
        ),
        (ShutdownState::Terminating, ShutdownEvent::Interrupt) => (
            ShutdownState::Aborting,
            ShutdownAction::ForceExit,
        ),
        (ShutdownState::Terminating, ShutdownEvent::WorkerReturned) => (
            ShutdownState::Stopped,
            ShutdownAction::Exit,
        ),
        _ => (s, ShutdownAction::Continue),
    }
}

/// Advances the coordinator by one observed event.
pub fn step(state: ShutdownState, event: ShutdownEvent) -> (r: (ShutdownState, ShutdownAction))
    ensures
        r == transition(state, event),
{
    match (state, event) {
        (ShutdownState::Running, ShutdownEvent::Interrupt) => (
            ShutdownState::Draining,
            ShutdownAction::StopIntake,
        ),
        (ShutdownState::Running, ShutdownEvent::StreamEnded) => (
            ShutdownState::Draining,
            ShutdownAction::StopIntake,
        ),
        (ShutdownState::Draining, ShutdownEvent::DispatchersDone) => (
            ShutdownState::Terminating,
            ShutdownAction::EnqueueTerminate,
        ),
        (ShutdownState::Draining, ShutdownEvent::Interrupt) => (
            ShutdownState::Aborting,
            ShutdownAction::ForceExit,
        ),
        (ShutdownState::Terminating, ShutdownEvent::Interrupt) => (
            ShutdownState::Aborting,
            ShutdownAction::ForceExit,
        ),
        (ShutdownState::Terminating, ShutdownEvent::WorkerReturned) => (
            ShutdownState::Stopped,
            ShutdownAction::Exit,
        ),
        _ => (state, ShutdownAction::Continue),
    }
}

/// The state reached from `s` after the events `es`, in order.
pub open spec fn state_after(s: ShutdownState, es: Seq<ShutdownEvent>) -> ShutdownState
    decreases es.len(),
{
    if es.len() == 0 {
        s
    } else {
        state_after(transition(s, es[0]).0, es.drop_first())
    }
}

/// Whether intake is closed in state `s`: no dispatcher is spawned there.
pub open spec fn intake_closed(s: ShutdownState) -> bool {
    s != ShutdownState::Running
}

/// `Terminate` is enqueued only once intake is closed and every dispatcher
/// has finished, and never again afterwards: whatever events follow, the
/// coordinator neither reopens intake nor enqueues a second `Terminate`.
pub proof fn lemma_terminate_enqueued_last(
    s: ShutdownState,
    e: ShutdownEvent,
    rest: Seq<ShutdownEvent>,
    k: int,
)
    requires
        transition(s, e).1 == ShutdownAction::EnqueueTerminate,
        0 <= k < rest.len(),
    ensures
        s == ShutdownState::Draining,
        e == ShutdownEvent::DispatchersDone,
        intake_closed(state_after(transition(s, e).0, rest.take(k))),
        transition(state_after(transition(s, e).0, rest.take(k)), rest[k]).1
            != ShutdownAction::EnqueueTerminate,
{
    lemma_no_reopen(transition(s, e).0, rest.take(k));
}

/// From a state past `Draining`, no sequence of events comes back to
/// `Running` or `Draining`.
proof fn lemma_no_reopen(s: ShutdownState, es: Seq<ShutdownEvent>)
    requires
        s != ShutdownState::Running,
        s != ShutdownState::Draining,
    ensures
        state_after(s, es) != ShutdownState::Running,
        state_after(s, es) != ShutdownState::Draining,
    decreases es.len(),
{
    if es.len() > 0 {
        lemma_no_reopen(transition(s, es[0]).0, es.drop_first());
    }
}

} // verus!
