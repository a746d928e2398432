use std::collections::HashSet;

use following_friends::{
    build_command, build_message_string, handle_update, int_to_text, ChatKind, IncomingMessage,
    MediaKind, MessageSender, NotificationCommand, Update,
};

fn watch(ids: &[i64]) -> HashSet<i64> {
    ids.iter().copied().collect()
}

fn group_message(sender: i64, name: Option<&str>, text: &str, media: Option<MediaKind>) -> IncomingMessage {
    IncomingMessage {
        chat_kind: ChatKind::Group,
        chat_id: 222,
        message_id: 5,
        sender: Some(MessageSender { id: sender, name: name.map(|n| n.to_string()) }),
        text: text.to_string(),
        media,
    }
}

fn message_text(cmd: Option<NotificationCommand>) -> (i64, u128, String) {
    match cmd {
        Some(NotificationCommand::Message { sender_id, event_timestamp, text }) => {
            (sender_id, event_timestamp, text)
        }
        other => panic!("expected a message command, got {:?}", other),
    }
}

#[test]
fn text_message_from_watched_sender_is_reported() {
    let update = Update::NewMessage(group_message(111, Some("Alice"), "hi", None));
    let (sender, ts, text) = message_text(build_command(&update, &watch(&[111]), 1234));
    assert_eq!(sender, 111);
    assert_eq!(ts, 1234);
    assert_eq!(text, "[Alice](tg://user?id=111) send a [text](https://t.me/c/222/5) message");
}

#[test]
fn unwatched_sender_produces_nothing() {
    let w = watch(&[111]);
    for text in ["hi", "", "anything at all"] {
        for media in [None, Some(MediaKind::Photo), Some(MediaKind::Other)] {
            let update = Update::NewMessage(group_message(999, Some("Bob"), text, media));
            assert!(build_command(&update, &w, 0).is_none());
            assert!(handle_update(&update, &w).is_none());
        }
    }
}

#[test]
fn photo_only_message_is_tagged_photo() {
    let update = Update::NewMessage(group_message(111, Some("Alice"), "", Some(MediaKind::Photo)));
    let (_, _, text) = message_text(build_command(&update, &watch(&[111]), 7));
    assert_eq!(text, "[Alice](tg://user?id=111) send a [photo](https://t.me/c/222/5) message");
}

#[test]
fn empty_message_produces_nothing() {
    let update = Update::NewMessage(group_message(111, Some("Alice"), "", None));
    assert!(build_command(&update, &watch(&[111]), 7).is_none());
    assert!(handle_update(&update, &watch(&[111])).is_none());
}

#[test]
fn media_tags() {
    let w = watch(&[111]);
    let cases = [
        (MediaKind::Document, "document"),
        (MediaKind::Sticker, "sticker"),
        (MediaKind::Other, "unsupported media"),
    ];
    for (media, tag) in cases {
        let update = Update::NewMessage(group_message(111, Some("A"), "x", Some(media)));
        let (_, _, text) = message_text(build_command(&update, &w, 0));
        assert_eq!(text, format!("[A](tg://user?id=111) send a [{tag}](https://t.me/c/222/5) message"));
    }
}

#[test]
fn nameless_sender_is_shown_as_not_available() {
    let update = Update::NewMessage(group_message(111, None, "hi", None));
    let (_, _, text) = message_text(build_command(&update, &watch(&[111]), 0));
    assert_eq!(text, "[N\\/A](tg://user?id=111) send a [text](https://t.me/c/222/5) message");
}

#[test]
fn non_group_chats_and_other_updates_are_ignored() {
    let w = watch(&[111]);
    for kind in [ChatKind::Private, ChatKind::Channel] {
        let mut m = group_message(111, Some("Alice"), "hi", None);
        m.chat_kind = kind;
        assert!(build_command(&Update::NewMessage(m), &w, 0).is_none());
    }
    let mut anonymous = group_message(111, Some("Alice"), "hi", None);
    anonymous.sender = None;
    assert!(build_command(&Update::NewMessage(anonymous), &w, 0).is_none());
    assert!(build_command(&Update::Other, &w, 0).is_none());
}

#[test]
fn handle_update_stamps_the_current_time() {
    let update = Update::NewMessage(group_message(111, Some("Alice"), "hi", None));
    let (sender, ts, text) = message_text(handle_update(&update, &watch(&[111])));
    assert_eq!(sender, 111);
    assert!(ts > 1_600_000_000_000);
    assert_eq!(text, "[Alice](tg://user?id=111) send a [text](https://t.me/c/222/5) message");
}

#[test]
fn descriptor_renders_large_and_negative_ids() {
    let m = group_message(1, Some("Z"), "hi", None);
    let s = build_message_string(&m, -1001234567890, i64::MAX, "Zed");
    assert_eq!(
        s,
        "[Zed](tg://user?id=9223372036854775807) send a [text](https://t.me/c/-1001234567890/5) message"
    );
}

#[test]
fn integer_text() {
    assert_eq!(int_to_text(0), "0");
    assert_eq!(int_to_text(7), "7");
    assert_eq!(int_to_text(10), "10");
    assert_eq!(int_to_text(-42), "-42");
    assert_eq!(int_to_text(i64::MIN), "-9223372036854775808");
    assert_eq!(int_to_text(i64::MAX), "9223372036854775807");
}
