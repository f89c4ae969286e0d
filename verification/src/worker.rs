//! The connection worker: the life of one relay connection, as a state
//! machine. The application makes the connection and moves the bytes; every
//! decision about the worker's state and about what is reported is made
//! here.

use crate::event::{Message, Subscription};
use crate::notify::{CommandKind, Notification, NotificationView};
use crate::wire::{
    cancellation_framing, filters_fault, frame_cancellation, frame_note, frame_subscription,
    note_framing, subscription_framings, text_view,
};
use vstd::prelude::*;

verus! {

/// Where a worker stands. A worker goes from `Connecting` to `Connected` or
/// to `FailedToConnect`, and from `Connected` to `Closed`. `Closed` and
/// `FailedToConnect` are final: there is no way back from them.
#[derive(Clone, Copy, Debug, PartialEq, Eq, Structural)]
pub enum WorkerState {
    Connecting,
    Connected,
    Closed,
    FailedToConnect,
}

/// What can happen to a worker.
#[derive(Debug, PartialEq, Eq)]
pub enum WorkerEvent {
    /// The relay has been reached.
    ConnectSucceeded,
    /// The relay could not be reached.
    ConnectFailed,
    /// The relay refused a command, or the command could not be sent.
    SendFailed(CommandKind, String),
    /// What the relay pushed could not be read as an event.
    MalformedEvent(String),
    /// The relay closed the connection, or the network failed while reading.
    ReadTerminated,
    /// The pool asked the worker to close its connection.
    CloseRequested,
}

/// The mathematical value of a [`WorkerEvent`].
pub enum WorkerEventView {
    ConnectSucceeded,
    ConnectFailed,
    SendFailed(CommandKind, Seq<char>),
    MalformedEvent(Seq<char>),
    ReadTerminated,
    CloseRequested,
}

impl View for WorkerEvent {
    type V = WorkerEventView;

    open spec fn view(&self) -> WorkerEventView {
        match self {
            WorkerEvent::ConnectSucceeded => WorkerEventView::ConnectSucceeded,
            WorkerEvent::ConnectFailed => WorkerEventView::ConnectFailed,
            WorkerEvent::SendFailed(kind, error) => WorkerEventView::SendFailed(*kind, error@),
            WorkerEvent::MalformedEvent(error) => WorkerEventView::MalformedEvent(error@),
            WorkerEvent::ReadTerminated => WorkerEventView::ReadTerminated,
            WorkerEvent::CloseRequested => WorkerEventView::CloseRequested,
        }
    }
}

/// A live worker takes commands: it is connecting or connected.
pub open spec fn is_live(state: WorkerState) -> bool {
    state == WorkerState::Connecting || state == WorkerState::Connected
}

/// The state of a worker after `event`.
pub open spec fn next_state(state: WorkerState, event: WorkerEventView) -> WorkerState {
    match (state, event) {
        (WorkerState::Connecting, WorkerEventView::ConnectSucceeded) => WorkerState::Connected,
        (WorkerState::Connecting, WorkerEventView::ConnectFailed) => WorkerState::FailedToConnect,
        (WorkerState::Connected, WorkerEventView::ReadTerminated) => WorkerState::Closed,
        (WorkerState::Connected, WorkerEventView::CloseRequested) => WorkerState::Closed,
        _ => state,
    }
}

/// What is reported when `event` happens to the worker for the relay at
/// `url`, if anything.
pub open spec fn report_of(state: WorkerState, event: WorkerEventView, url: Seq<char>) -> Option<
    NotificationView,
> {
    match (state, event) {
        (WorkerState::Connecting, WorkerEventView::ConnectSucceeded) => Some(
            NotificationView::Connected(url),
        ),
        (WorkerState::Connecting, WorkerEventView::ConnectFailed) => Some(
            NotificationView::ConnectionFailure(url),
        ),
        (WorkerState::Connected, WorkerEventView::ReadTerminated) => Some(
            NotificationView::Disconnected(url),
        ),
        (WorkerState::Connected, WorkerEventView::CloseRequested) => Some(
            NotificationView::Disconnected(url),
        ),
        (WorkerState::Connected, WorkerEventView::SendFailed(kind, error)) => Some(
            NotificationView::SendFailure(kind, error),
        ),
        (WorkerState::Connected, WorkerEventView::MalformedEvent(error)) => Some(
            NotificationView::MalformedEvent(error),
        ),
        _ => None,
    }
}

impl WorkerState {
    /// Whether the worker takes commands.
    pub fn live(self) -> (live: bool)
        ensures
            live == is_live(self),
    {
        match self {
            WorkerState::Connecting => true,
            WorkerState::Connected => true,
            WorkerState::Closed => false,
            WorkerState::FailedToConnect => false,
        }
    }

    /// One step of the worker for the relay at `url`: its next state, and
    /// what is to be reported.
    pub fn advance(self, event: &WorkerEvent, url: &String) -> (step: (WorkerState, Option<Notification>))
        ensures
            step.0 == next_state(self, event@),
            match step.1 {
                Some(notification) => report_of(self, event@, url@) == Some(notification@),
                None => report_of(self, event@, url@) is None,
            },
    {
        match self {
            WorkerState::Connecting => match event {
                WorkerEvent::ConnectSucceeded => (
                    WorkerState::Connected,
                    Some(Notification::Connected(url.clone())),
                ),
                WorkerEvent::ConnectFailed => (
                    WorkerState::FailedToConnect,
                    Some(Notification::ConnectionFailure(url.clone())),
                ),
                _ => (WorkerState::Connecting, None),
            },
            WorkerState::Connected => match event {
                WorkerEvent::ReadTerminated => (
                    WorkerState::Closed,
                    Some(Notification::Disconnected(url.clone())),
                ),
                WorkerEvent::CloseRequested => (
                    WorkerState::Closed,
                    Some(Notification::Disconnected(url.clone())),
                ),
                WorkerEvent::SendFailed(kind, error) => (
                    WorkerState::Connected,
                    Some(Notification::SendFailure(*kind, error.clone())),
                ),
                WorkerEvent::MalformedEvent(error) => (
                    WorkerState::Connected,
                    Some(Notification::MalformedEvent(error.clone())),
                ),
                _ => (WorkerState::Connected, None),
            },
            WorkerState::Closed => (WorkerState::Closed, None),
            WorkerState::FailedToConnect => (WorkerState::FailedToConnect, None),
        }
    }
}

/// What a worker does about a command that it found on one of its queues.
#[derive(Debug, PartialEq, Eq)]
pub enum Step {
    /// Send this frame to the relay.
    Send(String),
    /// Send nothing; tell the pool that this has happened.
    Report(WorkerEvent),
}

/// The mathematical value of a [`Step`].
pub enum StepView {
    Send(Seq<char>),
    Report(WorkerEventView),
}

impl View for Step {
    type V = StepView;

    open spec fn view(&self) -> StepView {
        match self {
            Step::Send(frame) => StepView::Send(frame@),
            Step::Report(event) => StepView::Report(event@),
        }
    }
}

/// The step for a command of the given kind, once its frame was made or
/// could not be made: the frame is sent; a command without a frame has
/// failed for the reason given.
pub open spec fn step_of(kind: CommandKind, framed: Result<Seq<char>, Seq<char>>) -> StepView {
    match framed {
        Ok(frame) => StepView::Send(frame),
        Err(reason) => StepView::Report(WorkerEventView::SendFailed(kind, reason)),
    }
}

/// The step for a command of the given kind, once its frame was made or
/// could not be made.
pub fn step_after(kind: CommandKind, framed: Result<String, String>) -> (step: Step)
    ensures
        step@ == step_of(kind, text_view(framed)),
{
    match framed {
        Ok(frame) => Step::Send(frame),
        Err(reason) => Step::Report(WorkerEvent::SendFailed(kind, reason)),
    }
}

/// The step for a message from the publish queue: its frame is sent, or, if
/// its content is not a signed note, the publish has failed.
pub fn publish_step(message: &Message) -> (step: Step)
    ensures
        step@ == step_of(CommandKind::Publish, note_framing(message@.content)),
{
    step_after(CommandKind::Publish, frame_note(&message.content))
}

/// The step for a subscription from the subscribe queue: where its filters
/// can be read, one of the frames that ask for this subscription, with this
/// id and these filters, is sent; where they cannot, the subscribing has
/// failed for the reason why they cannot, and nothing is sent.
pub fn subscribe_step(subscription: &Subscription) -> (step: Step)
    ensures
        match filters_fault(subscription@.filters) {
            Some(reason) => step@ == StepView::Report(
                WorkerEventView::SendFailed(CommandKind::Subscribe, reason),
            ),
            None => step is Send && subscription_framings(
                subscription@.id,
                subscription@.filters,
            ).contains(step@->Send_0),
        },
{
    step_after(
        CommandKind::Subscribe,
        frame_subscription(&subscription.id, &subscription.filters),
    )
}

/// The step for an id from the unsubscribe queue: the frame that cancels the
/// subscription is sent, whether or not a subscription with that id was ever
/// made.
pub fn unsubscribe_step(id: &String) -> (step: Step)
    ensures
        step@ == StepView::Send(cancellation_framing(id@)),
{
    Step::Send(frame_cancellation(id))
}

/// The state of a worker after a run of events.
pub open spec fn state_after(state: WorkerState, events: Seq<WorkerEventView>) -> WorkerState
    decreases events.len(),
{
    if events.len() == 0 {
        state
    } else {
        next_state(state_after(state, events.drop_last()), events.last())
    }
}

/// Everything that is reported during a run of events, in order.
pub open spec fn reports_during(
    state: WorkerState,
    events: Seq<WorkerEventView>,
    url: Seq<char>,
) -> Seq<NotificationView>
    decreases events.len(),
{
    if events.len() == 0 {
        Seq::empty()
    } else {
        let earlier = reports_during(state, events.drop_last(), url);
        match report_of(state_after(state, events.drop_last()), events.last(), url) {
            Some(notification) => earlier.push(notification),
            None => earlier,
        }
    }
}

/// How many of `reports` say that a connection could not be made.
pub open spec fn connection_failures(reports: Seq<NotificationView>) -> nat
    decreases reports.len(),
{
    if reports.len() == 0 {
        0
    } else {
        connection_failures(reports.drop_last()) + if reports.last() is ConnectionFailure {
            1nat
        } else {
            0nat
        }
    }
}

/// How many of `reports` say that a connection has ended.
pub open spec fn disconnections(reports: Seq<NotificationView>) -> nat
    decreases reports.len(),
{
    if reports.len() == 0 {
        0
    } else {
        disconnections(reports.drop_last()) + if reports.last() is Disconnected {
            1nat
        } else {
            0nat
        }
    }
}

/// A worker that has failed or closed is inert: nothing changes its state
/// and nothing is reported of it any more.
pub proof fn law_final_states_are_inert(state: WorkerState, event: WorkerEventView, url: Seq<char>)
    requires
        !is_live(state),
    ensures
        next_state(state, event) == state,
        report_of(state, event, url) is None,
{
}

/// Asking a worker to close ends it if it is connected, and its end is
/// reported. A worker that is still connecting stays as it is, in silence:
/// the request waits on its queue until the connection is made, and what
/// becomes of the connection attempt is reported as if no close had been
/// asked. A worker that is not live is left as it is, in silence.
pub proof fn law_close_request_ends_a_connected_worker(state: WorkerState, url: Seq<char>)
    ensures
        next_state(state, WorkerEventView::CloseRequested) == if state == WorkerState::Connected {
            WorkerState::Closed
        } else {
            state
        },
        report_of(state, WorkerEventView::CloseRequested, url) == if state
            == WorkerState::Connected {
            Some(NotificationView::Disconnected(url))
        } else {
            None
        },
{
}

/// A worker whose connection attempt fails is reported once, as a
/// connection failure that names its relay, and in no other way: whatever
/// happened to it before, a close request being one, and whatever happens to
/// it after, there is no report that it connected or disconnected.
pub proof fn law_failed_connection_is_the_only_report(events: Seq<WorkerEventView>, url: Seq<char>)
    ensures
        state_after(WorkerState::Connecting, events) == WorkerState::Connecting
            ==> reports_during(WorkerState::Connecting, events, url) == Seq::<
            NotificationView,
        >::empty(),
        state_after(WorkerState::Connecting, events) == WorkerState::FailedToConnect
            ==> reports_during(WorkerState::Connecting, events, url)
            == seq![NotificationView::ConnectionFailure(url)],
    decreases events.len(),
{
    if events.len() > 0 {
        law_failed_connection_is_the_only_report(events.drop_last(), url);
    }
}

/// A worker never comes back: once it is not live, no run of events makes
/// it live again, and nothing is reported during the run.
pub proof fn law_no_reconnect(state: WorkerState, events: Seq<WorkerEventView>, url: Seq<char>)
    requires
        !is_live(state),
    ensures
        state_after(state, events) == state,
        reports_during(state, events, url) == Seq::<NotificationView>::empty(),
    decreases events.len(),
{
    if events.len() > 0 {
        law_no_reconnect(state, events.drop_last(), url);
    }
}

/// A command that fails on a live connection does not end the worker: it
/// stays connected, so its other loops go on, and the failure is reported.
/// This holds of every command kind and whatever the reason, a subscription
/// id that the relay does not know being one.
pub proof fn law_failed_command_keeps_worker_running(kind: CommandKind, error: Seq<char>, url: Seq<char>)
    ensures
        next_state(WorkerState::Connected, WorkerEventView::SendFailed(kind, error))
            == WorkerState::Connected,
        report_of(WorkerState::Connected, WorkerEventView::SendFailed(kind, error), url) == Some(
            NotificationView::SendFailure(kind, error),
        ),
{
}

/// What cannot be read as an event is dropped and reported; the worker goes
/// on reading.
pub proof fn law_malformed_event_keeps_worker_running(error: Seq<char>, url: Seq<char>)
    ensures
        next_state(WorkerState::Connected, WorkerEventView::MalformedEvent(error))
            == WorkerState::Connected,
        report_of(WorkerState::Connected, WorkerEventView::MalformedEvent(error), url) == Some(
            NotificationView::MalformedEvent(error),
        ),
{
}

/// Whatever happens to a worker from the moment it starts connecting, the
/// end of its life is reported exactly once: one connection failure if it
/// ends as `FailedToConnect`, one disconnection if it ends as `Closed`, and
/// neither while it is live.
pub proof fn law_end_of_life_reported_once(events: Seq<WorkerEventView>, url: Seq<char>)
    ensures
        connection_failures(reports_during(WorkerState::Connecting, events, url)) == if state_after(
            WorkerState::Connecting,
            events,
        ) == WorkerState::FailedToConnect {
            1nat
        } else {
            0nat
        },
        disconnections(reports_during(WorkerState::Connecting, events, url)) == if state_after(
            WorkerState::Connecting,
            events,
        ) == WorkerState::Closed {
            1nat
        } else {
            0nat
        },
    decreases events.len(),
{
    if events.len() > 0 {
        let earlier = events.drop_last();
        law_end_of_life_reported_once(earlier, url);
        let before = state_after(WorkerState::Connecting, earlier);
        let reports = reports_during(WorkerState::Connecting, earlier, url);
        match report_of(before, events.last(), url) {
            Some(notification) => {
                assert(reports.push(notification).drop_last() =~= reports);
            },
            None => {},
        }
    }
}

} // verus!
