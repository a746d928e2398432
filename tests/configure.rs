use following_friends::{send_message_url, Configure, SendMessageParameters, DEFAULT_COOLDOWN_SECONDS};

#[test]
fn defaults_apply_when_missing() {
    let c = Configure::new(
        42,
        "hash".to_string(),
        "SECRET-REDACTED".to_string(),
        7,
        None,
        vec![1, 2, 2, 3],
        None,
    );
    assert_eq!(c.api_id(), 42);
    assert_eq!(c.api_hash(), "hash");
    assert_eq!(c.owner_id(), 7);
    assert_eq!(c.bot_token(), "SECRET-REDACTED");
    assert_eq!(c.api_base_url(), "https://api.telegram.org");
    assert_eq!(c.cooldown_seconds(), 60);
    assert_eq!(DEFAULT_COOLDOWN_SECONDS, 60);
    assert_eq!(c.following().len(), 3);
    assert!(c.following().contains(&2));
    assert!(!c.following().contains(&4));
    assert_eq!(c.watch_list(), &vec![1, 2, 2, 3]);
}

#[test]
fn configured_values_are_kept() {
    let c = Configure::new(
        1,
        "h".to_string(),
        "tok".to_string(),
        9,
        Some("http://localhost:8081".to_string()),
        vec![],
        Some(5),
    );
    assert_eq!(c.api_base_url(), "http://localhost:8081");
    assert_eq!(c.cooldown_seconds(), 5);
    assert!(c.following().is_empty());
    assert_eq!(c.send_message_url(), "http://localhost:8081/bottok/sendMessage");
}

#[test]
fn endpoint_address() {
    assert_eq!(
        send_message_url("https://api.telegram.org", "123:abc"),
        "https://api.telegram.org/bot123:abc/sendMessage"
    );
}

#[test]
fn send_message_parameters_use_markdown() {
    let p = SendMessageParameters::new(-5, "hello".to_string());
    assert_eq!(p.chat_id(), -5);
    assert_eq!(p.text(), "hello");
    assert_eq!(p.parse_mode(), "markdown");
}
