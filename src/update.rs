use vstd::prelude::*;

verus! {

/// The kind of media attached to a message.
#[derive(Clone, Copy, Debug, PartialEq, Eq, Structural)]
pub enum MediaKind {
    Photo,
    Document,
    Sticker,
    Other,
}

/// The kind of chat that a message was posted in.
#[derive(Clone, Copy, Debug, PartialEq, Eq, Structural)]
pub enum ChatKind {
    Group,
    Private,
    Channel,
}

/// The author of a message.
#[derive(Clone, Debug)]
pub struct MessageSender {
    pub id: i64,
    pub name: Option<String>,
}

/// A newly posted message, as decoded by the platform client.
#[derive(Clone, Debug)]
pub struct IncomingMessage {
    pub chat_kind: ChatKind,
    pub chat_id: i64,
    pub message_id: i32,
    pub sender: Option<MessageSender>,
    pub text: String,
    pub media: Option<MediaKind>,
}

/// One event yielded by the update source.
#[derive(Clone, Debug)]
pub enum Update {
    NewMessage(IncomingMessage),
    Other,
}

} // verus!
