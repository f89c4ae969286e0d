use minions::aggregator::Aggregator;
use minions::event::{Message, RelayEvent};

fn message(id: &str, content: &str) -> Message {
    Message { id: id.to_string(), content: content.to_string() }
}

fn event(subscription: &str, id: &str, content: &str) -> RelayEvent {
    RelayEvent::Event(subscription.to_string(), message(id, content))
}

fn ids(messages: &Vec<Message>) -> Vec<String> {
    messages.iter().map(|m| m.id.clone()).collect()
}

#[test]
fn new_aggregator_is_empty() {
    let aggregator = Aggregator::new();
    assert!(aggregator.events().is_empty());
    assert!(aggregator.raw_events().is_empty());
    assert!(!aggregator.has_delivered("abc"));
}

#[test]
fn same_message_from_two_relays_is_merged_once_and_kept_raw_twice() {
    let mut aggregator = Aggregator::new();
    assert!(aggregator.ingest(event("sub", "abc", "msgA")));
    assert!(!aggregator.ingest(event("sub", "abc", "msgA")));
    assert_eq!(aggregator.events(), &vec![message("abc", "msgA")]);
    assert_eq!(
        aggregator.raw_events(),
        &vec![event("sub", "abc", "msgA"), event("sub", "abc", "msgA")]
    );
    assert!(aggregator.has_delivered("abc"));
}

#[test]
fn first_writer_wins() {
    let mut aggregator = Aggregator::new();
    assert!(aggregator.ingest(event("one", "abc", "first")));
    assert!(!aggregator.ingest(event("two", "abc", "second")));
    assert_eq!(aggregator.events(), &vec![message("abc", "first")]);
    assert_eq!(aggregator.raw_events().len(), 2);
}

#[test]
fn every_identity_is_merged_once_in_order_of_first_arrival() {
    let mut aggregator = Aggregator::new();
    let arrivals = ["a", "b", "a", "c", "b", "a", "d", "c"];
    let fresh: Vec<bool> =
        arrivals.iter().map(|id| aggregator.ingest(event("sub", id, "x"))).collect();
    assert_eq!(fresh, vec![true, true, false, true, false, false, true, false]);
    assert_eq!(ids(aggregator.events()), vec!["a", "b", "c", "d"]);
    assert_eq!(aggregator.raw_events().len(), arrivals.len());
}

#[test]
fn arrival_order_changes_the_order_but_not_what_is_delivered() {
    let mut one = Aggregator::new();
    let mut other = Aggregator::new();
    for id in ["a", "b", "a", "c", "b"] {
        one.ingest(event("sub", id, "x"));
    }
    for id in ["b", "c", "a", "b", "a"] {
        other.ingest(event("sub", id, "x"));
    }
    assert_eq!(ids(one.events()), vec!["a", "b", "c"]);
    assert_eq!(ids(other.events()), vec!["b", "c", "a"]);
    let mut left = ids(one.events());
    let mut right = ids(other.events());
    left.sort();
    right.sort();
    assert_eq!(left, right);
}

#[test]
fn other_events_pass_to_the_raw_stream_each_time_and_are_never_merged() {
    let mut aggregator = Aggregator::new();
    let notice = RelayEvent::NoticeOrOther("slow down".to_string());
    let end = RelayEvent::EndOfStoredEvents("sub".to_string());
    assert!(!aggregator.ingest(notice.clone()));
    assert!(!aggregator.ingest(notice.clone()));
    assert!(!aggregator.ingest(end.clone()));
    assert!(!aggregator.ingest(end.clone()));
    assert!(!aggregator.ingest(notice.clone()));
    assert_eq!(
        aggregator.raw_events(),
        &vec![notice.clone(), notice.clone(), end.clone(), end, notice]
    );
    assert!(aggregator.events().is_empty());
}

#[test]
fn subscription_id_is_not_a_message_identity() {
    let mut aggregator = Aggregator::new();
    assert!(!aggregator.ingest(RelayEvent::EndOfStoredEvents("abc".to_string())));
    assert!(!aggregator.has_delivered("abc"));
    assert!(aggregator.ingest(event("sub", "abc", "x")));
    assert!(!aggregator.has_delivered("sub"));
}

#[test]
fn empty_identity_is_an_identity_like_any_other() {
    let mut aggregator = Aggregator::new();
    assert!(aggregator.ingest(event("sub", "", "x")));
    assert!(!aggregator.ingest(event("sub", "", "y")));
    assert_eq!(aggregator.events(), &vec![message("", "x")]);
}
