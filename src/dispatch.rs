use std::collections::HashSet;
use vstd::prelude::*;
use vstd::string::StringExecFns;

use crate::clock::current_timestamp;
use crate::command::NotificationCommand;
use crate::text::{decimal_text, int_to_text};
use crate::update::{ChatKind, IncomingMessage, MediaKind, MessageSender, Update};

verus! {

broadcast use vstd::std_specs::hash::group_hash_axioms;

/// The tag naming what a message carries.
pub open spec fn media_tag(media: Option<MediaKind>) -> Seq<char> {
    match media {
        None => "text"@,
        Some(MediaKind::Photo) => "photo"@,
        Some(MediaKind::Document) => "document"@,
        Some(MediaKind::Sticker) => "sticker"@,
        Some(MediaKind::Other) => "unsupported media"@,
    }
}

/// The name shown for a sender; an escaped `N/A` when it has none.
pub open spec fn display_name(sender: MessageSender) -> Seq<char> {
    match sender.name {
        Some(n) => n@,
        None => "N\\/A"@,
    }
}

/// The descriptor of one message: a mention of the sender, the media tag and
/// a deep link to the message.
pub open spec fn descriptor(
    user_name: Seq<char>,
    user_id: i64,
    tag: Seq<char>,
    chat_id: i64,
    message_id: i32,
) -> Seq<char> {
    "["@ + user_name + "](tg://user?id="@ + decimal_text(user_id as int) + ") send a ["@ + tag
        + "](https://t.me/c/"@ + decimal_text(chat_id as int) + "/"@ + decimal_text(
        message_id as int,
    ) + ") message"@
}

/// Whether a message carries anything to report: text or media.
pub open spec fn has_content(m: IncomingMessage) -> bool {
    m.text@.len() > 0 || m.media is Some
}

/// Whether an update calls for a notification: a new message in a group
/// chat, with a known sender on the watch list, carrying text or media.
pub open spec fn is_relevant(update: Update, watch: Set<i64>) -> bool {
    match update {
        Update::NewMessage(m) => {
            &&& m.chat_kind == ChatKind::Group
            &&& m.sender is Some
            &&& watch.contains(m.sender->0.id)
            &&& has_content(m)
        },
        Update::Other => false,
    }
}

/// Whether `update` is a message whose known sender is not watched.
pub open spec fn from_unwatched_sender(update: Update, watch: Set<i64>) -> bool {
    &&& update is NewMessage
    &&& update->NewMessage_0.sender is Some
    &&& !watch.contains(update->NewMessage_0.sender->0.id)
}

/// Whether `update` is a message with neither text nor media.
pub open spec fn is_empty_message(update: Update) -> bool {
    update is NewMessage && !has_content(update->NewMessage_0)
}

/// Whether `update` is a photo without text, posted in a group chat by a
/// watched sender.
pub open spec fn is_watched_photo_only(update: Update, watch: Set<i64>) -> bool {
    &&& update is NewMessage
    &&& update->NewMessage_0.chat_kind == ChatKind::Group
    &&& update->NewMessage_0.sender is Some
    &&& watch.contains(update->NewMessage_0.sender->0.id)
    &&& update->NewMessage_0.text@.len() == 0
    &&& update->NewMessage_0.media == Some(MediaKind::Photo)
}

/// The descriptor that a relevant message is reported with.
pub open spec fn message_descriptor(m: IncomingMessage) -> Seq<char>
    recommends
        m.sender is Some,
{
    let s = m.sender->0;
    descriptor(display_name(s), s.id, media_tag(m.media), m.chat_id, m.message_id)
}

/// The command produced for `update` at time `now`: `None` when the update
/// is not relevant, else a message command of its sender, stamped `now`,
/// carrying its descriptor.
pub open spec fn command_matches(
    r: Option<NotificationCommand>,
    update: Update,
    watch: Set<i64>,
    now: u128,
) -> bool {
    if is_relevant(update, watch) {
        let m = update->NewMessage_0;
        match r {
            Some(NotificationCommand::Message { sender_id, event_timestamp, text }) => {
                &&& sender_id == m.sender->0.id
                &&& event_timestamp == now
                &&& text@ == message_descriptor(m)
            },
            _ => false,
        }
    } else {
        r is None
    }
}

fn media_tag_str(media: Option<MediaKind>) -> (r: &'static str)
    ensures
        r@ == media_tag(media),
{
    match media {
        None => "text",
        Some(MediaKind::Photo) => "photo",
        Some(MediaKind::Document) => "document",
        Some(MediaKind::Sticker) => "sticker",
        Some(MediaKind::Other) => "unsupported media",
    }
}

/// Renders the descriptor of `message`, posted in chat `chat_id` by the user
/// `user_id` shown as `user_name`.
pub fn build_message_string(
    message: &IncomingMessage,
    chat_id: i64,
    user_id: i64,
    user_name: &str,
) -> (r: String)
    ensures
        r@ == descriptor(user_name@, user_id, media_tag(message.media), chat_id, message.message_id),
{
    let type_string = media_tag_str(message.media);
    let mut s = String::new();
    s.append("[");
    s.append(user_name);
    s.append("](tg://user?id=");
    s.append(int_to_text(user_id).as_str());
    s.append(") send a [");
    s.append(type_string);
    s.append("](https://t.me/c/");
    s.append(int_to_text(chat_id).as_str());
    s.append("/");
    s.append(int_to_text(message.message_id as i64).as_str());
    s.append(") message");
    assert(s@ =~= descriptor(
        user_name@,
        user_id,
        media_tag(message.media),
        chat_id,
        message.message_id,
    ));
    s
}

/// Decides what a dispatcher does with one update observed at time `now`:
/// a message command for a relevant update, nothing otherwise.
pub fn build_command(update: &Update, watch: &HashSet<i64>, now: u128) -> (r: Option<
    NotificationCommand,
>)
    ensures
        command_matches(r, *update, watch@, now),
        from_unwatched_sender(*update, watch@) ==> r is None,
        is_empty_message(*update) ==> r is None,
        is_watched_photo_only(*update, watch@) ==> ({
            let m = update->NewMessage_0;
            let s = m.sender->0;
            &&& r is Some
            &&& r->0 is Message
            &&& r->0->Message_text@ == descriptor(
                display_name(s),
                s.id,
                "photo"@,
                m.chat_id,
                m.message_id,
            )
        }),
{
    match update {
        Update::NewMessage(message) => {
            if message.chat_kind != ChatKind::Group {
                return None;
            }
            match &message.sender {
                Some(user) => {
                    if !watch.contains(&user.id) || (message.text.as_str().is_empty()
                        && message.media.is_none()) {
                        return None;
                    }
                    let text = match &user.name {
                        Some(n) => build_message_string(message, message.chat_id, user.id, n.as_str()),
                        None => build_message_string(message, message.chat_id, user.id, "N\\/A"),
                    };
                    Some(NotificationCommand::Message { sender_id: user.id, event_timestamp: now, text })
                },
                None => None,
            }
        },
        Update::Other => None,
    }
}

/// Handles one update at the current time: the command to enqueue, if any.
pub fn handle_update(update: &Update, watch: &HashSet<i64>) -> (r: Option<NotificationCommand>)
    ensures
        exists|now: u128| command_matches(r, *update, watch@, now),
        from_unwatched_sender(*update, watch@) ==> r is None,
        is_empty_message(*update) ==> r is None,
{
    let now = current_timestamp();
    build_command(update, watch, now)
}

} // verus!
