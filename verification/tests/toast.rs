use minions::notify::{CommandKind, Notification};
use minions::toast::ToastifyOptions;

fn toast(
    text: &str,
    duration: u32,
    position: &'static str,
    class_name: &'static str,
    style: &str,
) -> ToastifyOptions {
    ToastifyOptions {
        text: text.to_string(),
        duration,
        close: true,
        gravity: "top",
        position,
        stop_on_focus: true,
        class_name,
        style: Some(style.to_string()),
    }
}

const GREEN: &str = "background: linear-gradient(to right, #00b09b, #96c93d)";
const ORANGE: &str = "background: linear-gradient(to right, #ff5f6d, #ffc371)";
const BLUE: &str = "background: linear-gradient(to right, #2193b0, #6dd5ed)";
const RED: &str = "background: linear-gradient(to right, #cb2d3e, #ef473a)";

#[test]
fn relay_connected_toast() {
    assert_eq!(
        ToastifyOptions::new_relay_connected("wss://relay.example"),
        toast("Connected to relay: wss://relay.example", 3000, "right", "relay-success-toast", GREEN)
    );
}

#[test]
fn relay_disconnected_toast() {
    assert_eq!(
        ToastifyOptions::new_relay_disconnected("wss://relay.example"),
        toast(
            "Disconnected from relay: wss://relay.example",
            4000,
            "right",
            "relay-error-toast",
            ORANGE
        )
    );
}

#[test]
fn event_received_toast() {
    assert_eq!(
        ToastifyOptions::new_event_received("note"),
        toast("New note event received", 2000, "right", "event-toast", BLUE)
    );
}

#[test]
fn relay_error_toast() {
    assert_eq!(
        ToastifyOptions::new_relay_error("timed out"),
        toast("Relay error: timed out", 4000, "right", "relay-error-toast", RED)
    );
}

#[test]
fn login_toast() {
    assert_eq!(
        ToastifyOptions::new_login("Welcome back".to_string()),
        toast("Welcome back", 21000, "left", "success-toast", GREEN)
    );
}

#[test]
fn success_toast() {
    assert_eq!(
        ToastifyOptions::new_success("Saved"),
        toast("Saved", 2100, "left", "success-toast", GREEN)
    );
}

#[test]
fn failure_toast() {
    assert_eq!(
        ToastifyOptions::new_failure("Not saved"),
        toast("Not saved", 2100, "left", "failure-toast", ORANGE)
    );
}

#[test]
fn toast_of_an_empty_url() {
    assert_eq!(ToastifyOptions::new_relay_connected("").text, "Connected to relay: ");
}

#[test]
fn notification_toasts() {
    let url = "wss://relay.example".to_string();
    assert_eq!(
        Notification::Connected(url.clone()).toast(),
        ToastifyOptions::new_relay_connected("wss://relay.example")
    );
    assert_eq!(
        Notification::Disconnected(url.clone()).toast(),
        ToastifyOptions::new_relay_disconnected("wss://relay.example")
    );
    assert_eq!(
        Notification::ConnectionFailure(url).toast().text,
        "Relay error: Failed to connect to relay: wss://relay.example"
    );
    assert_eq!(
        Notification::SendFailure(CommandKind::Publish, "refused".to_string()).toast().text,
        "Relay error: Error sending note: refused"
    );
    assert_eq!(
        Notification::SendFailure(CommandKind::Subscribe, "refused".to_string()).toast().text,
        "Relay error: Error subscribing: refused"
    );
    assert_eq!(
        Notification::SendFailure(CommandKind::Unsubscribe, "refused".to_string()).toast().text,
        "Relay error: Error unsubscribing: refused"
    );
    assert_eq!(
        Notification::MalformedEvent("not json".to_string()).toast().text,
        "Relay error: Malformed event: not json"
    );
    assert_eq!(Notification::NewEvent.toast(), ToastifyOptions::new_event_received("note"));
}

#[test]
fn error_notifications_look_like_errors() {
    let shown = Notification::SendFailure(CommandKind::Publish, "refused".to_string()).toast();
    assert_eq!(shown, toast("Relay error: Error sending note: refused", 4000, "right", "relay-error-toast", RED));
}

#[test]
fn clone_keeps_every_option() {
    let shown = ToastifyOptions::new_relay_error("timed out");
    assert_eq!(shown.clone(), shown);
    let plain = ToastifyOptions { style: None, ..ToastifyOptions::new_success("Saved") };
    assert_eq!(plain.clone(), plain);
}
