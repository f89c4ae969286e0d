//! The options of a pop-up notice, as the page's notification widget takes
//! them, and the notices that the application shows.

use vstd::prelude::*;
use vstd::string::*;

verus! {

/// The options of one pop-up notice.
#[derive(Debug, PartialEq, Eq)]
pub struct ToastifyOptions {
    pub text: String,
    /// How long the notice stays, in milliseconds.
    pub duration: u32,
    pub close: bool,
    /// `top` or `bottom`.
    pub gravity: &'static str,
    /// `left`, `center` or `right`.
    pub position: &'static str,
    /// Whether the notice stays while the pointer is over it.
    pub stop_on_focus: bool,
    pub class_name: &'static str,
    pub style: Option<String>,
}

/// The mathematical value of a [`ToastifyOptions`].
pub struct ToastView {
    pub text: Seq<char>,
    pub duration: nat,
    pub close: bool,
    pub gravity: Seq<char>,
    pub position: Seq<char>,
    pub stop_on_focus: bool,
    pub class_name: Seq<char>,
    pub style: Option<Seq<char>>,
}

impl View for ToastifyOptions {
    type V = ToastView;

    open spec fn view(&self) -> ToastView {
        ToastView {
            text: self.text@,
            duration: self.duration as nat,
            close: self.close,
            gravity: self.gravity@,
            position: self.position@,
            stop_on_focus: self.stop_on_focus,
            class_name: self.class_name@,
            style: match self.style {
                Some(style) => Some(style@),
                None => None,
            },
        }
    }
}

impl Clone for ToastifyOptions {
    fn clone(&self) -> (copy: Self)
        ensures
            copy@ == self@,
    {
        ToastifyOptions {
            text: self.text.clone(),
            duration: self.duration,
            close: self.close,
            gravity: self.gravity,
            position: self.position,
            stop_on_focus: self.stop_on_focus,
            class_name: self.class_name,
            style: match &self.style {
                Some(style) => Some(style.clone()),
                None => None,
            },
        }
    }
}

/// A notice at the top of the page that can be closed and stays under the
/// pointer: all the application's notices are of this shape.
pub open spec fn notice_at_top(
    text: Seq<char>,
    duration: nat,
    position: Seq<char>,
    class_name: Seq<char>,
    style: Seq<char>,
) -> ToastView {
    ToastView {
        text,
        duration,
        close: true,
        gravity: "top"@,
        position,
        stop_on_focus: true,
        class_name,
        style: Some(style),
    }
}

/// The notice that the relay at `relay_url` has been reached.
pub open spec fn connected_toast(relay_url: Seq<char>) -> ToastView {
    notice_at_top(
        "Connected to relay: "@ + relay_url,
        3000,
        "right"@,
        "relay-success-toast"@,
        "background: linear-gradient(to right, #00b09b, #96c93d)"@,
    )
}

/// The notice that the connection to the relay at `relay_url` has ended.
pub open spec fn disconnected_toast(relay_url: Seq<char>) -> ToastView {
    notice_at_top(
        "Disconnected from relay: "@ + relay_url,
        4000,
        "right"@,
        "relay-error-toast"@,
        "background: linear-gradient(to right, #ff5f6d, #ffc371)"@,
    )
}

/// The notice that an event of the kind `event_type` has come in.
pub open spec fn event_toast(event_type: Seq<char>) -> ToastView {
    notice_at_top(
        "New "@ + event_type + " event received"@,
        2000,
        "right"@,
        "event-toast"@,
        "background: linear-gradient(to right, #2193b0, #6dd5ed)"@,
    )
}

/// The notice that something went wrong with a relay.
pub open spec fn error_toast(error: Seq<char>) -> ToastView {
    notice_at_top(
        "Relay error: "@ + error,
        4000,
        "right"@,
        "relay-error-toast"@,
        "background: linear-gradient(to right, #cb2d3e, #ef473a)"@,
    )
}

impl ToastifyOptions {
    /// The notice that a relay has been reached.
    pub fn new_relay_connected(relay_url: &str) -> (toast: Self)
        ensures
            toast@ == connected_toast(relay_url@),
    {
        ToastifyOptions {
            text: String::from_str("Connected to relay: ").concat(relay_url),
            duration: 3000,
            close: true,
            gravity: "top",
            position: "right",
            stop_on_focus: true,
            class_name: "relay-success-toast",
            style: Some(String::from_str("background: linear-gradient(to right, #00b09b, #96c93d)")),
        }
    }

    /// The notice that the connection to a relay has ended.
    pub fn new_relay_disconnected(relay_url: &str) -> (toast: Self)
        ensures
            toast@ == disconnected_toast(relay_url@),
    {
        ToastifyOptions {
            text: String::from_str("Disconnected from relay: ").concat(relay_url),
            duration: 4000,
            close: true,
            gravity: "top",
            position: "right",
            stop_on_focus: true,
            class_name: "relay-error-toast",
            style: Some(String::from_str("background: linear-gradient(to right, #ff5f6d, #ffc371)")),
        }
    }

    /// The notice that an event of the given kind has come in.
    pub fn new_event_received(event_type: &str) -> (toast: Self)
        ensures
            toast@ == event_toast(event_type@),
    {
        ToastifyOptions {
            text: String::from_str("New ").concat(event_type).concat(" event received"),
            duration: 2000,
            close: true,
            gravity: "top",
            position: "right",
            stop_on_focus: true,
            class_name: "event-toast",
            style: Some(String::from_str("background: linear-gradient(to right, #2193b0, #6dd5ed)")),
        }
    }

    /// The notice that something went wrong with a relay.
    pub fn new_relay_error(error: &str) -> (toast: Self)
        ensures
            toast@ == error_toast(error@),
    {
        ToastifyOptions {
            text: String::from_str("Relay error: ").concat(error),
            duration: 4000,
            close: true,
            gravity: "top",
            position: "right",
            stop_on_focus: true,
            class_name: "relay-error-toast",
            style: Some(String::from_str("background: linear-gradient(to right, #cb2d3e, #ef473a)")),
        }
    }

    /// The notice shown after signing in. It stays for 21 seconds.
    pub fn new_login(text: String) -> (toast: Self)
        ensures
            toast@ == notice_at_top(
                text@,
                21000,
                "left"@,
                "success-toast"@,
                "background: linear-gradient(to right, #00b09b, #96c93d)"@,
            ),
    {
        ToastifyOptions {
            text,
            duration: 21000,
            close: true,
            gravity: "top",
            position: "left",
            stop_on_focus: true,
            class_name: "success-toast",
            style: Some(String::from_str("background: linear-gradient(to right, #00b09b, #96c93d)")),
        }
    }

    /// A short notice of success.
    pub fn new_success(text: &'static str) -> (toast: Self)
        ensures
            toast@ == notice_at_top(
                text@,
                2100,
                "left"@,
                "success-toast"@,
                "background: linear-gradient(to right, #00b09b, #96c93d)"@,
            ),
    {
        ToastifyOptions {
            text: String::from_str(text),
            duration: 2100,
            close: true,
            gravity: "top",
            position: "left",
            stop_on_focus: true,
            class_name: "success-toast",
            style: Some(String::from_str("background: linear-gradient(to right, #00b09b, #96c93d)")),
        }
    }

    /// A short notice of failure.
    pub fn new_failure(text: &'static str) -> (toast: Self)
        ensures
            toast@ == notice_at_top(
                text@,
                2100,
                "left"@,
                "failure-toast"@,
                "background: linear-gradient(to right, #ff5f6d, #ffc371)"@,
            ),
    {
        ToastifyOptions {
            text: String::from_str(text),
            duration: 2100,
            close: true,
            gravity: "top",
            position: "left",
            stop_on_focus: true,
            class_name: "failure-toast",
            style: Some(String::from_str("background: linear-gradient(to right, #ff5f6d, #ffc371)")),
        }
    }
}

} // verus!
