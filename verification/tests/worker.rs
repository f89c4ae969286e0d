use minions::event::{Message, Subscription};
use minions::notify::{CommandKind, Notification};
use minions::worker::{
    publish_step, step_after, subscribe_step, unsubscribe_step, Step, WorkerEvent, WorkerState,
};

const NOTE: &str = "{\"id\":\"4376c65d2f232afbe9b882a35baa4f6fe8667c4e684749af565f981833ed6a65\",\"pubkey\":\"6e468422dfb74a5738702a8823b9b28168abab8655faacb6853cd0ee15deee93\",\"created_at\":1673347337,\"kind\":1,\"tags\":[[\"e\",\"3da979448d9ba263864c4d6f14984c423a3838364ec255f03c7904b1ae77f206\"]],\"content\":\"Walled gardens became prisons\",\"sig\":\"908a15e46fb4d8675bab026fc230a0e3542bfade63da02d542fb78b2a8513fcd0092619a2c8c1221e581946e0191f2af505dfdf8657a414dbca329186f009262\"}";

fn url() -> String {
    "wss://relay.example".to_string()
}

fn all_events() -> Vec<WorkerEvent> {
    vec![
        WorkerEvent::ConnectSucceeded,
        WorkerEvent::ConnectFailed,
        WorkerEvent::SendFailed(CommandKind::Publish, "no".to_string()),
        WorkerEvent::SendFailed(CommandKind::Subscribe, "no".to_string()),
        WorkerEvent::SendFailed(CommandKind::Unsubscribe, "no".to_string()),
        WorkerEvent::MalformedEvent("bad json".to_string()),
        WorkerEvent::ReadTerminated,
        WorkerEvent::CloseRequested,
    ]
}

#[test]
fn connecting_and_connected_are_live() {
    assert!(WorkerState::Connecting.live());
    assert!(WorkerState::Connected.live());
    assert!(!WorkerState::Closed.live());
    assert!(!WorkerState::FailedToConnect.live());
}

#[test]
fn connecting_worker_connects() {
    let step = WorkerState::Connecting.advance(&WorkerEvent::ConnectSucceeded, &url());
    assert_eq!(step, (WorkerState::Connected, Some(Notification::Connected(url()))));
}

#[test]
fn connecting_worker_fails_to_connect() {
    let step = WorkerState::Connecting.advance(&WorkerEvent::ConnectFailed, &url());
    assert_eq!(
        step,
        (WorkerState::FailedToConnect, Some(Notification::ConnectionFailure(url())))
    );
}

#[test]
fn connecting_worker_waits_with_a_close_request() {
    let step = WorkerState::Connecting.advance(&WorkerEvent::CloseRequested, &url());
    assert_eq!(step, (WorkerState::Connecting, None));
}

#[test]
fn failure_to_connect_is_reported_after_a_close_request() {
    let mut state = WorkerState::Connecting;
    let mut reports = Vec::new();
    for event in [
        WorkerEvent::CloseRequested,
        WorkerEvent::CloseRequested,
        WorkerEvent::ConnectFailed,
        WorkerEvent::ReadTerminated,
        WorkerEvent::CloseRequested,
    ] {
        let (next, reported) = state.advance(&event, &url());
        state = next;
        reports.extend(reported);
    }
    assert_eq!(state, WorkerState::FailedToConnect);
    assert_eq!(reports, vec![Notification::ConnectionFailure(url())]);
}

#[test]
fn worker_connects_after_a_close_request_and_is_closed_when_the_request_is_served() {
    let mut state = WorkerState::Connecting;
    let mut reports = Vec::new();
    for event in [
        WorkerEvent::CloseRequested,
        WorkerEvent::ConnectSucceeded,
        WorkerEvent::ReadTerminated,
    ] {
        let (next, reported) = state.advance(&event, &url());
        state = next;
        reports.extend(reported);
    }
    assert_eq!(state, WorkerState::Closed);
    assert_eq!(reports, vec![Notification::Connected(url()), Notification::Disconnected(url())]);
}

#[test]
fn connecting_worker_ignores_what_only_a_connection_can_do() {
    for event in [
        WorkerEvent::SendFailed(CommandKind::Publish, "no".to_string()),
        WorkerEvent::MalformedEvent("bad".to_string()),
        WorkerEvent::ReadTerminated,
        WorkerEvent::CloseRequested,
    ] {
        assert_eq!(WorkerState::Connecting.advance(&event, &url()), (WorkerState::Connecting, None));
    }
}

#[test]
fn connected_worker_closes_when_reading_ends() {
    let step = WorkerState::Connected.advance(&WorkerEvent::ReadTerminated, &url());
    assert_eq!(step, (WorkerState::Closed, Some(Notification::Disconnected(url()))));
}

#[test]
fn connected_worker_closes_on_request() {
    let step = WorkerState::Connected.advance(&WorkerEvent::CloseRequested, &url());
    assert_eq!(step, (WorkerState::Closed, Some(Notification::Disconnected(url()))));
}

#[test]
fn failed_command_is_reported_and_worker_stays_connected() {
    for kind in [CommandKind::Publish, CommandKind::Subscribe, CommandKind::Unsubscribe] {
        let event = WorkerEvent::SendFailed(kind, "refused".to_string());
        assert_eq!(
            WorkerState::Connected.advance(&event, &url()),
            (WorkerState::Connected, Some(Notification::SendFailure(kind, "refused".to_string())))
        );
    }
}

#[test]
fn malformed_event_is_reported_and_worker_stays_connected() {
    let event = WorkerEvent::MalformedEvent("bad json".to_string());
    assert_eq!(
        WorkerState::Connected.advance(&event, &url()),
        (WorkerState::Connected, Some(Notification::MalformedEvent("bad json".to_string())))
    );
}

#[test]
fn connected_worker_ignores_connection_results() {
    for event in [WorkerEvent::ConnectSucceeded, WorkerEvent::ConnectFailed] {
        assert_eq!(WorkerState::Connected.advance(&event, &url()), (WorkerState::Connected, None));
    }
}

#[test]
fn final_states_are_inert() {
    for state in [WorkerState::Closed, WorkerState::FailedToConnect] {
        for event in all_events() {
            assert_eq!(state.advance(&event, &url()), (state, None));
        }
    }
}

#[test]
fn end_of_life_is_reported_once() {
    let mut state = WorkerState::Connecting;
    let mut reports = Vec::new();
    for event in [
        WorkerEvent::ConnectSucceeded,
        WorkerEvent::CloseRequested,
        WorkerEvent::ReadTerminated,
        WorkerEvent::CloseRequested,
        WorkerEvent::ConnectFailed,
    ] {
        let (next, reported) = state.advance(&event, &url());
        state = next;
        reports.extend(reported);
    }
    assert_eq!(state, WorkerState::Closed);
    assert_eq!(reports, vec![Notification::Connected(url()), Notification::Disconnected(url())]);
}

#[test]
fn step_after_sends_the_frame_that_was_made() {
    assert_eq!(
        step_after(CommandKind::Publish, Ok("frame".to_string())),
        Step::Send("frame".to_string())
    );
}

#[test]
fn step_after_reports_the_command_that_has_no_frame() {
    for kind in [CommandKind::Publish, CommandKind::Subscribe, CommandKind::Unsubscribe] {
        assert_eq!(
            step_after(kind, Err("why".to_string())),
            Step::Report(WorkerEvent::SendFailed(kind, "why".to_string()))
        );
    }
}

#[test]
fn publish_step_frames_the_note() {
    let message = Message {
        id: "4376c65d2f232afbe9b882a35baa4f6fe8667c4e684749af565f981833ed6a65".to_string(),
        content: NOTE.to_string(),
    };
    assert_eq!(publish_step(&message), Step::Send(format!("[\"EVENT\",{}]", NOTE)));
}

#[test]
fn publish_step_reports_what_is_not_a_note() {
    let message = Message { id: "abc".to_string(), content: "hello".to_string() };
    let step = publish_step(&message);
    assert!(
        matches!(&step, Step::Report(WorkerEvent::SendFailed(CommandKind::Publish, reason)) if !reason.is_empty()),
        "{:?}",
        step
    );
}

#[test]
fn subscribe_step_frames_the_filters() {
    let subscription =
        Subscription { id: "sub".to_string(), filters: "{\"kinds\":[1],\"limit\":3}".to_string() };
    assert_eq!(
        subscribe_step(&subscription),
        Step::Send("[\"REQ\",\"sub\",{\"kinds\":[1],\"limit\":3}]".to_string())
    );
}

#[test]
fn subscribe_step_keeps_a_tag_filter() {
    let subscription =
        Subscription { id: "sub".to_string(), filters: "{\"#e\":[\"abc\"]}".to_string() };
    assert_eq!(
        subscribe_step(&subscription),
        Step::Send("[\"REQ\",\"sub\",{\"#e\":[\"abc\"]}]".to_string())
    );
}

#[test]
fn subscribe_step_reports_filters_that_cannot_be_read() {
    let subscription = Subscription { id: "sub".to_string(), filters: "[1,2".to_string() };
    let step = subscribe_step(&subscription);
    assert!(
        matches!(&step, Step::Report(WorkerEvent::SendFailed(CommandKind::Subscribe, reason)) if !reason.is_empty()),
        "{:?}",
        step
    );
}

#[test]
fn unsubscribe_step_frames_any_id() {
    assert_eq!(unsubscribe_step(&"sub".to_string()), Step::Send("[\"CLOSE\",\"sub\"]".to_string()));
    assert_eq!(
        unsubscribe_step(&"never \"subscribed\"".to_string()),
        Step::Send("[\"CLOSE\",\"never \\\"subscribed\\\"\"]".to_string())
    );
    assert_eq!(unsubscribe_step(&String::new()), Step::Send("[\"CLOSE\",\"\"]".to_string()));
}

#[test]
fn subscribe_step_reports_the_reason_why_the_filters_cannot_be_read() {
    for filters in ["", "[1,2", "{\"kinds\":\"one\"}", "{\"limit\":-1}", "nonsense"] {
        let subscription = Subscription { id: "sub".to_string(), filters: filters.to_string() };
        let reason = serde_json::from_str::<nostro2::relays::NostrSubscription>(filters)
            .unwrap_err()
            .to_string();
        assert_eq!(
            subscribe_step(&subscription),
            Step::Report(WorkerEvent::SendFailed(CommandKind::Subscribe, reason))
        );
    }
}

#[test]
fn subscribe_step_fails_for_the_filters_and_not_for_the_id() {
    let readable = "{\"kinds\":[1]}".to_string();
    let unreadable = "{\"kinds\":1}".to_string();
    for id in ["", "sub", "another \"id\""] {
        let sent = subscribe_step(&Subscription { id: id.to_string(), filters: readable.clone() });
        assert!(matches!(sent, Step::Send(_)), "{:?}", sent);
        let failed =
            subscribe_step(&Subscription { id: id.to_string(), filters: unreadable.clone() });
        assert_eq!(
            failed,
            subscribe_step(&Subscription { id: "sub".to_string(), filters: unreadable.clone() })
        );
        assert!(matches!(failed, Step::Report(_)), "{:?}", failed);
    }
}

#[test]
fn subscribe_step_sends_a_frame_for_filters_with_several_tags() {
    let subscription = Subscription {
        id: "sub".to_string(),
        filters: "{\"kinds\":[1],\"#e\":[\"abc\"],\"#p\":[\"def\"]}".to_string(),
    };
    match subscribe_step(&subscription) {
        Step::Send(frame) => {
            assert!(frame.starts_with("[\"REQ\",\"sub\",{"), "{}", frame);
            assert!(frame.contains("\"#e\":[\"abc\"]"), "{}", frame);
            assert!(frame.contains("\"#p\":[\"def\"]"), "{}", frame);
            assert!(frame.contains("\"kinds\":[1]"), "{}", frame);
        }
        other => panic!("{:?}", other),
    }
}
