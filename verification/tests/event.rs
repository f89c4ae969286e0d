use minions::config::UserRelay;
use minions::event::{clone_events, clone_messages, Message, RelayEvent, Subscription};

fn message(id: &str, content: &str) -> Message {
    Message { id: id.to_string(), content: content.to_string() }
}

#[test]
fn relay_clone_keeps_url_and_flags() {
    let relay = UserRelay { url: "wss://relay.example".to_string(), read: true, write: false };
    assert_eq!(relay.clone(), relay);
    let other = UserRelay { url: "wss://relay.example".to_string(), read: false, write: true };
    assert_eq!(other.clone(), other);
    assert_ne!(relay, other);
}

#[test]
fn message_clone_keeps_id_and_content() {
    let first = message("abc", "{\"content\":\"hello\"}");
    assert_eq!(first.clone(), first);
}

#[test]
fn subscription_clone_keeps_id_and_filters() {
    let subscription = Subscription { id: "sub".to_string(), filters: "{}".to_string() };
    assert_eq!(subscription.clone(), subscription);
}

#[test]
fn event_clone_keeps_the_variant_and_its_parts() {
    for event in [
        RelayEvent::Event("sub".to_string(), message("abc", "x")),
        RelayEvent::EndOfStoredEvents("sub".to_string()),
        RelayEvent::NoticeOrOther("slow down".to_string()),
    ] {
        assert_eq!(event.clone(), event);
    }
}

#[test]
fn lists_are_copied_in_order() {
    let messages = vec![message("a", "1"), message("b", "2"), message("a", "3")];
    assert_eq!(clone_messages(&messages), messages);
    assert_eq!(clone_messages(&Vec::new()), Vec::<Message>::new());
    let events = vec![
        RelayEvent::NoticeOrOther("one".to_string()),
        RelayEvent::Event("sub".to_string(), message("a", "1")),
        RelayEvent::EndOfStoredEvents("sub".to_string()),
    ];
    assert_eq!(clone_events(&events), events);
    assert_eq!(clone_events(&Vec::new()), Vec::<RelayEvent>::new());
}
