//! What the pool tells the notification sink. The pool decides what is
//! reported; showing it is the application's part.

use crate::toast::{connected_toast, disconnected_toast, error_toast, event_toast, ToastView, ToastifyOptions};
use vstd::prelude::*;
use vstd::string::*;

verus! {

/// The commands that a worker sends to its relay.
#[derive(Clone, Copy, Debug, PartialEq, Eq, Structural)]
pub enum CommandKind {
    Publish,
    Subscribe,
    Unsubscribe,
}

/// One report to the notification sink.
#[derive(Debug, PartialEq, Eq)]
pub enum Notification {
    /// The relay at this url has been reached.
    Connected(String),
    /// The connection to the relay at this url has ended.
    Disconnected(String),
    /// The relay at this url could not be reached.
    ConnectionFailure(String),
    /// A command failed on a live connection; the text says why.
    SendFailure(CommandKind, String),
    /// What a relay pushed could not be read as an event; the text says why.
    MalformedEvent(String),
    /// A message of a new identity has come in.
    NewEvent,
}

/// The mathematical value of a [`Notification`].
pub enum NotificationView {
    Connected(Seq<char>),
    Disconnected(Seq<char>),
    ConnectionFailure(Seq<char>),
    SendFailure(CommandKind, Seq<char>),
    MalformedEvent(Seq<char>),
    NewEvent,
}

impl View for Notification {
    type V = NotificationView;

    open spec fn view(&self) -> NotificationView {
        match self {
            Notification::Connected(url) => NotificationView::Connected(url@),
            Notification::Disconnected(url) => NotificationView::Disconnected(url@),
            Notification::ConnectionFailure(url) => NotificationView::ConnectionFailure(url@),
            Notification::SendFailure(kind, error) => NotificationView::SendFailure(*kind, error@),
            Notification::MalformedEvent(error) => NotificationView::MalformedEvent(error@),
            Notification::NewEvent => NotificationView::NewEvent,
        }
    }
}

/// The values of a sequence of notifications, in order.
pub open spec fn notifications_view(notifications: Seq<Notification>) -> Seq<NotificationView> {
    notifications.map_values(|n: Notification| n@)
}

/// The words that introduce the failure of a command of the given kind.
pub open spec fn failure_prefix(kind: CommandKind) -> Seq<char> {
    match kind {
        CommandKind::Publish => "Error sending note: "@,
        CommandKind::Subscribe => "Error subscribing: "@,
        CommandKind::Unsubscribe => "Error unsubscribing: "@,
    }
}

/// The notice that shows a notification.
pub open spec fn toast_of(notification: NotificationView) -> ToastView {
    match notification {
        NotificationView::Connected(url) => connected_toast(url),
        NotificationView::Disconnected(url) => disconnected_toast(url),
        NotificationView::ConnectionFailure(url) => error_toast(
            "Failed to connect to relay: "@ + url,
        ),
        NotificationView::SendFailure(kind, error) => error_toast(failure_prefix(kind) + error),
        NotificationView::MalformedEvent(error) => error_toast("Malformed event: "@ + error),
        NotificationView::NewEvent => event_toast("note"@),
    }
}

impl Notification {
    /// The notice that shows this notification.
    pub fn toast(&self) -> (toast: ToastifyOptions)
        ensures
            toast@ == toast_of(self@),
    {
        match self {
            Notification::Connected(url) => ToastifyOptions::new_relay_connected(url.as_str()),
            Notification::Disconnected(url) => ToastifyOptions::new_relay_disconnected(
                url.as_str(),
            ),
            Notification::ConnectionFailure(url) => {
                let error = String::from_str("Failed to connect to relay: ").concat(url.as_str());
                ToastifyOptions::new_relay_error(error.as_str())
            },
            Notification::SendFailure(kind, reason) => {
                let prefix = match kind {
                    CommandKind::Publish => "Error sending note: ",
                    CommandKind::Subscribe => "Error subscribing: ",
                    CommandKind::Unsubscribe => "Error unsubscribing: ",
                };
                let error = String::from_str(prefix).concat(reason.as_str());
                ToastifyOptions::new_relay_error(error.as_str())
            },
            Notification::MalformedEvent(reason) => {
                let error = String::from_str("Malformed event: ").concat(reason.as_str());
                ToastifyOptions::new_relay_error(error.as_str())
            },
            Notification::NewEvent => ToastifyOptions::new_event_received("note"),
        }
    }
}

} // verus!
