use vstd::prelude::*;

verus! {

/// What a dispatcher hands to the notification worker.
#[derive(Clone, Debug)]
pub enum NotificationCommand {
    /// Activity of a watched sender: who, when (milliseconds since the
    /// epoch) and the rendered descriptor.
    Message { sender_id: i64, event_timestamp: u128, text: String },
    /// Tells the worker to stop consuming.
    Terminate,
}

} // verus!
