//! The pool supervisor: it owns the workers' states, the queues that lead to
//! the workers and the event aggregator, and it is the one place through
//! which commands, events and the workers' reports pass.
//!
//! The pool's mathematical value is a [`PoolView`]: the configured relays,
//! the state of each worker, and everything that has arrived. What an action
//! makes of a pool is [`after`]; what is reported on the way is [`reports`].

use crate::aggregator::{is_fresh, merged_of, Aggregator};
use crate::channel::{open_queue, Delivery};
use crate::config::{UserRelay, UserRelayView};
use crate::event::{
    clone_events, clone_messages, events_view, messages_view, Message, MessageView, RelayEvent,
    RelayEventView, Subscription, SubscriptionView,
};
use crate::notify::{notifications_view, Notification, NotificationView};
use crate::router::{fan_out, none_live, routed};
use crate::wire::{frame_meaning, interpret, meaning_view};
use crate::worker::{is_live, next_state, report_of, WorkerEvent, WorkerEventView, WorkerState};
use async_channel::{Receiver, Sender};
use vstd::prelude::*;

verus! {

/// What can be asked of the pool, or told to it.
#[derive(Debug, PartialEq, Eq)]
pub enum RelayAction {
    /// A worker has received this event from its relay.
    Event(RelayEvent),
    /// Publish this message.
    SendNote(Message),
    /// Ask the relays for the events of this subscription.
    Subscribe(Subscription),
    /// Cancel the subscription with this id.
    Unsubscribe(String),
    /// Close every connection.
    Close,
    /// This has happened to the worker with this index.
    Worker(usize, WorkerEvent),
}

/// The mathematical value of a [`RelayAction`].
pub enum RelayActionView {
    Event(RelayEventView),
    SendNote(MessageView),
    Subscribe(SubscriptionView),
    Unsubscribe(Seq<char>),
    Close,
    Worker(int, WorkerEventView),
}

impl View for RelayAction {
    type V = RelayActionView;

    open spec fn view(&self) -> RelayActionView {
        match self {
            RelayAction::Event(event) => RelayActionView::Event(event@),
            RelayAction::SendNote(message) => RelayActionView::SendNote(message@),
            RelayAction::Subscribe(subscription) => RelayActionView::Subscribe(subscription@),
            RelayAction::Unsubscribe(id) => RelayActionView::Unsubscribe(id@),
            RelayAction::Close => RelayActionView::Close,
            RelayAction::Worker(index, event) => RelayActionView::Worker(*index as int, event@),
        }
    }
}

/// What the pool hands to those who read its streams.
#[derive(Debug, PartialEq, Eq)]
pub struct NostrProps {
    /// The raw stream: every arrival.
    pub relay_events: Vec<RelayEvent>,
    /// The merged stream: one message of each identity.
    pub notes: Vec<Message>,
}

/// What a pool is made from.
#[derive(Debug, PartialEq, Eq)]
pub struct RelayContextProps {
    pub user_relays: Vec<UserRelay>,
}

/// What one worker takes with it when it starts: the place of its relay in
/// the configuration, the relay's url, and the receiving end of each of its
/// four queues.
pub struct WorkerLink {
    pub index: usize,
    pub url: String,
    pub notes: Receiver<Message>,
    pub filters: Receiver<Subscription>,
    pub cancellations: Receiver<String>,
    pub closes: Receiver<()>,
}

/// What an action has set off: what became of the command at each worker,
/// and what is to be reported.
#[derive(Debug, PartialEq, Eq)]
pub struct Outcome {
    pub deliveries: Vec<Delivery>,
    pub notifications: Vec<Notification>,
}

/// The mathematical value of a [`RelayPool`].
pub struct PoolView {
    /// The configured relays, in order.
    pub relays: Seq<UserRelayView>,
    /// The state of each relay's worker.
    pub states: Seq<WorkerState>,
    /// Everything that has arrived from the relays, in order of arrival.
    pub arrivals: Seq<RelayEventView>,
}

/// The values of a sequence of relay configurations, in order.
pub open spec fn relays_view(relays: Seq<UserRelay>) -> Seq<UserRelayView> {
    relays.map_values(|r: UserRelay| r@)
}

/// The pool as it is made: every worker is connecting and nothing has
/// arrived.
pub open spec fn fresh_pool(relays: Seq<UserRelayView>) -> PoolView {
    PoolView {
        relays,
        states: Seq::new(relays.len(), |i: int| WorkerState::Connecting),
        arrivals: Seq::empty(),
    }
}

/// The links are those of the relays: one for each, in order, with the
/// relay's place and url.
pub open spec fn links_of(links: Seq<WorkerLink>, relays: Seq<UserRelayView>) -> bool {
    &&& links.len() == relays.len()
    &&& forall|i: int|
        0 <= i < links.len() ==> (#[trigger] links[i]).index == i && links[i].url@ == relays[i].url
}

/// The states of the workers after all of them were asked to close: those
/// that were connected are closed, the others are as they were. A worker
/// that is still connecting stays so; the request waits on its queue.
pub open spec fn closed_states(states: Seq<WorkerState>) -> Seq<WorkerState> {
    states.map_values(
        |s: WorkerState|
            if s == WorkerState::Connected {
                WorkerState::Closed
            } else {
                s
            },
    )
}

/// No worker in `states` is connected.
pub open spec fn none_connected(states: Seq<WorkerState>) -> bool {
    forall|i: int| 0 <= i < states.len() ==> #[trigger] states[i] != WorkerState::Connected
}

/// What is reported when all workers are asked to close: the end of each
/// connected worker's connection, in the order of the workers.
pub open spec fn close_reports(relays: Seq<UserRelayView>, states: Seq<WorkerState>) -> Seq<
    NotificationView,
>
    decreases states.len(),
{
    if states.len() == 0 || relays.len() != states.len() {
        Seq::empty()
    } else {
        let earlier = close_reports(relays.drop_last(), states.drop_last());
        if states.last() == WorkerState::Connected {
            earlier.push(NotificationView::Disconnected(relays.last().url))
        } else {
            earlier
        }
    }
}

/// The action is a command, which is routed to the workers.
pub open spec fn is_command(action: RelayActionView) -> bool {
    action is SendNote || action is Subscribe || action is Unsubscribe || action is Close
}

/// The pool after an action.
pub open spec fn after(pool: PoolView, action: RelayActionView) -> PoolView {
    match action {
        RelayActionView::Event(event) => PoolView { arrivals: pool.arrivals.push(event), ..pool },
        RelayActionView::SendNote(_) => pool,
        RelayActionView::Subscribe(_) => pool,
        RelayActionView::Unsubscribe(_) => pool,
        RelayActionView::Close => PoolView { states: closed_states(pool.states), ..pool },
        RelayActionView::Worker(index, event) => if 0 <= index < pool.states.len() {
            PoolView { states: pool.states.update(index, next_state(pool.states[index], event)), ..pool }
        } else {
            pool
        },
    }
}

/// What is reported when an action is taken on a pool.
pub open spec fn reports(pool: PoolView, action: RelayActionView) -> Seq<NotificationView> {
    match action {
        RelayActionView::Event(event) => if is_fresh(pool.arrivals, event) {
            seq![NotificationView::NewEvent]
        } else {
            Seq::empty()
        },
        RelayActionView::SendNote(_) => Seq::empty(),
        RelayActionView::Subscribe(_) => Seq::empty(),
        RelayActionView::Unsubscribe(_) => Seq::empty(),
        RelayActionView::Close => close_reports(pool.relays, pool.states),
        RelayActionView::Worker(index, event) => if 0 <= index < pool.states.len() {
            match report_of(pool.states[index], event, pool.relays[index].url) {
                Some(notification) => seq![notification],
                None => Seq::empty(),
            }
        } else {
            Seq::empty()
        },
    }
}

/// What a worker's reading of a frame asks of the pool: to take in the event
/// that the frame means, or to note that the worker met a malformed frame.
pub open spec fn action_of(worker: int, meaning: Result<RelayEventView, Seq<char>>) -> RelayActionView {
    match meaning {
        Ok(event) => RelayActionView::Event(event),
        Err(reason) => RelayActionView::Worker(worker, WorkerEventView::MalformedEvent(reason)),
    }
}

/// An event means the same to the pool whichever worker received it.
pub proof fn law_origin_is_immaterial(one: int, other: int, event: RelayEventView)
    ensures
        action_of(one, Ok(event)) == action_of(other, Ok(event)),
{
}

/// The pool after a run of actions.
pub open spec fn after_all(pool: PoolView, actions: Seq<RelayActionView>) -> PoolView
    decreases actions.len(),
{
    if actions.len() == 0 {
        pool
    } else {
        after(after_all(pool, actions.drop_last()), actions.last())
    }
}

/// Asking workers to close leaves none of them connected.
pub proof fn lemma_closed_states_not_connected(states: Seq<WorkerState>)
    ensures
        none_connected(closed_states(states)),
        closed_states(states).len() == states.len(),
{
}

/// Nothing is reported when workers are asked to close of which none is
/// connected.
pub proof fn lemma_close_reports_nothing(relays: Seq<UserRelayView>, states: Seq<WorkerState>)
    requires
        none_connected(states),
    ensures
        close_reports(relays, states) == Seq::<NotificationView>::empty(),
    decreases states.len(),
{
    if states.len() != 0 && relays.len() == states.len() {
        assert(none_connected(states.drop_last())) by {
            assert forall|i: int| 0 <= i < states.drop_last().len() implies #[trigger] states.drop_last()[i]
                != WorkerState::Connected by {
                assert(states[i] != WorkerState::Connected);
            }
        }
        lemma_close_reports_nothing(relays.drop_last(), states.drop_last());
        assert(states[states.len() - 1] != WorkerState::Connected);
    }
}

/// A command that is issued while no worker is live completes and has no
/// effect: the pool is as it was, nothing is reported, and no queue is
/// touched.
pub proof fn law_publish_without_live_workers(
    pool: PoolView,
    message: MessageView,
    report: Seq<Delivery>,
)
    requires
        none_live(pool.states),
        routed(pool.states, report),
    ensures
        after(pool, RelayActionView::SendNote(message)) == pool,
        reports(pool, RelayActionView::SendNote(message)) == Seq::<NotificationView>::empty(),
        report == Seq::new(pool.states.len(), |i: int| Delivery::Skipped),
{
    crate::router::law_no_live_worker_no_delivery(pool.states, report);
}

/// Publishing, subscribing and unsubscribing never change the pool and are
/// never reported, whatever the message, the subscription or the id: an id
/// that was never subscribed is as good as any other.
pub proof fn law_commands_leave_pool_unchanged(pool: PoolView, action: RelayActionView)
    requires
        action is SendNote || action is Subscribe || action is Unsubscribe,
    ensures
        after(pool, action) == pool,
        reports(pool, action) == Seq::<NotificationView>::empty(),
{
}

/// Closing twice is closing once: after the first close no worker is
/// connected, so a second close changes nothing and reports nothing. It
/// reaches no queue but those of the workers that are still connecting, on
/// which the first request waits already.
pub proof fn law_close_is_idempotent(pool: PoolView, second_report: Seq<Delivery>)
    requires
        routed(after(pool, RelayActionView::Close).states, second_report),
    ensures
        none_connected(after(pool, RelayActionView::Close).states),
        after(after(pool, RelayActionView::Close), RelayActionView::Close) == after(
            pool,
            RelayActionView::Close,
        ),
        reports(after(pool, RelayActionView::Close), RelayActionView::Close) == Seq::<
            NotificationView,
        >::empty(),
        second_report.len() == pool.states.len(),
        forall|i: int|
            0 <= i < pool.states.len() ==> ((#[trigger] second_report[i]) is Skipped
                <==> pool.states[i] != WorkerState::Connecting),
{
    let once = after(pool, RelayActionView::Close);
    lemma_closed_states_not_connected(pool.states);
    lemma_close_reports_nothing(once.relays, once.states);
    assert(closed_states(once.states) =~= once.states);
    assert forall|i: int| 0 <= i < pool.states.len() implies ((#[trigger] second_report[i])
        is Skipped <==> pool.states[i] != WorkerState::Connecting) by {
        assert(once.states[i] == if pool.states[i] == WorkerState::Connected {
            WorkerState::Closed
        } else {
            pool.states[i]
        });
    }
}

/// A close does not hide what becomes of a connection attempt: a worker
/// that is connecting when the pool is closed is connecting afterwards, and
/// if its attempt then fails, that is reported as the failure to connect to
/// its relay, as it would have been without the close.
pub proof fn law_close_does_not_hide_a_connection_failure(pool: PoolView, worker: int)
    requires
        0 <= worker < pool.states.len(),
        pool.states[worker] == WorkerState::Connecting,
    ensures
        after(pool, RelayActionView::Close).states[worker] == WorkerState::Connecting,
        reports(
            after(pool, RelayActionView::Close),
            RelayActionView::Worker(worker, WorkerEventView::ConnectFailed),
        ) == seq![NotificationView::ConnectionFailure(pool.relays[worker].url)],
        after(
            after(pool, RelayActionView::Close),
            RelayActionView::Worker(worker, WorkerEventView::ConnectFailed),
        ).states[worker] == WorkerState::FailedToConnect,
{
}

/// The configured relays are fixed when the pool is made, and there is one
/// worker for each of them as long as the pool lives.
pub proof fn law_relays_are_fixed(pool: PoolView, action: RelayActionView)
    ensures
        after(pool, action).relays == pool.relays,
        after(pool, action).states.len() == pool.states.len(),
{
}

/// A worker that is not live stays as it is, whatever is done to the pool:
/// workers are not started again.
pub proof fn law_no_worker_comes_back(pool: PoolView, action: RelayActionView, worker: int)
    requires
        0 <= worker < pool.states.len(),
        !is_live(pool.states[worker]),
    ensures
        after(pool, action).states[worker] == pool.states[worker],
{
}

/// What happens to one worker is that worker's affair: the other workers
/// stay as they are, and so do the streams.
pub proof fn law_workers_are_isolated(
    pool: PoolView,
    worker: int,
    event: WorkerEventView,
    other: int,
)
    requires
        0 <= other < pool.states.len(),
        other != worker,
    ensures
        after(pool, RelayActionView::Worker(worker, event)).states[other] == pool.states[other],
        after(pool, RelayActionView::Worker(worker, event)).arrivals == pool.arrivals,
{
}

/// The delivered identities only grow and the merged stream is only
/// appended to, whatever is done to the pool.
pub proof fn law_delivered_set_only_grows(pool: PoolView, action: RelayActionView)
    ensures
        crate::aggregator::delivered_ids(pool.arrivals).subset_of(
            crate::aggregator::delivered_ids(after(pool, action).arrivals),
        ),
        merged_of(pool.arrivals).is_prefix_of(merged_of(after(pool, action).arrivals)),
{
    match action {
        RelayActionView::Event(event) => {
            assert(pool.arrivals + seq![event] =~= pool.arrivals.push(event));
            crate::aggregator::law_delivered_only_grows(pool.arrivals, seq![event]);
        },
        _ => {},
    }
}

/// A new message is reported exactly when the merged stream gets one: each
/// delivered identity stands for one message of the merged stream and for
/// one report.
pub proof fn law_report_for_each_delivery(pool: PoolView, event: RelayEventView)
    ensures
        reports(pool, RelayActionView::Event(event)).len() + merged_of(pool.arrivals).len()
            == merged_of(after(pool, RelayActionView::Event(event)).arrivals).len(),
{
    crate::aggregator::lemma_merged_push(pool.arrivals, event);
}

/// Through the whole life of a pool the delivered identities only grow and
/// the merged stream is only appended to.
pub proof fn law_delivered_set_never_shrinks(pool: PoolView, actions: Seq<RelayActionView>)
    ensures
        crate::aggregator::delivered_ids(pool.arrivals).subset_of(
            crate::aggregator::delivered_ids(after_all(pool, actions).arrivals),
        ),
        merged_of(pool.arrivals).is_prefix_of(merged_of(after_all(pool, actions).arrivals)),
    decreases actions.len(),
{
    if actions.len() > 0 {
        let before = after_all(pool, actions.drop_last());
        law_delivered_set_never_shrinks(pool, actions.drop_last());
        law_delivered_set_only_grows(before, actions.last());
    }
}

/// Through the whole life of a pool the configured relays stay as they were
/// given, each with its worker.
pub proof fn law_relays_stay_as_configured(relays: Seq<UserRelayView>, actions: Seq<RelayActionView>)
    ensures
        after_all(fresh_pool(relays), actions).relays == relays,
        after_all(fresh_pool(relays), actions).states.len() == relays.len(),
    decreases actions.len(),
{
    if actions.len() > 0 {
        law_relays_stay_as_configured(relays, actions.drop_last());
        law_relays_are_fixed(after_all(fresh_pool(relays), actions.drop_last()), actions.last());
    }
}

/// A pool in which no worker is live stays so whatever is done to it: once
/// all its workers have closed or failed, no action brings a worker back.
pub proof fn law_closed_pool_stays_closed(pool: PoolView, actions: Seq<RelayActionView>)
    requires
        none_live(pool.states),
    ensures
        after_all(pool, actions).states == pool.states,
    decreases actions.len(),
{
    if actions.len() > 0 {
        law_closed_pool_stays_closed(pool, actions.drop_last());
        let before = after_all(pool, actions.drop_last());
        assert(after(before, actions.last()).states =~= before.states);
    }
}

/// The relay pool.
pub struct RelayPool {
    relays: Vec<UserRelay>,
    states: Vec<WorkerState>,
    aggregator: Aggregator,
    sender_channel: Vec<Sender<Message>>,
    filter_channel: Vec<Sender<Subscription>>,
    unsubscribe_channel: Vec<Sender<String>>,
    close_channel: Vec<Sender<()>>,
}

impl View for RelayPool {
    type V = PoolView;

    closed spec fn view(&self) -> PoolView {
        PoolView {
            relays: relays_view(self.relays@),
            states: self.states@,
            arrivals: self.aggregator@,
        }
    }
}

impl RelayPool {
    /// Every relay has its worker and its four queues, and the aggregator is
    /// in order.
    pub closed spec fn wf(&self) -> bool {
        &&& self.states.len() == self.relays.len()
        &&& self.sender_channel.len() == self.relays.len()
        &&& self.filter_channel.len() == self.relays.len()
        &&& self.unsubscribe_channel.len() == self.relays.len()
        &&& self.close_channel.len() == self.relays.len()
        &&& self.aggregator.wf()
    }

    /// The sending ends of the workers' queues, as the pool holds them: for
    /// each kind of command the list of the workers' queues, in the order of
    /// the workers. They are fixed when the pool is made.
    pub closed spec fn queues(&self) -> (
        Seq<Sender<Message>>,
        Seq<Sender<Subscription>>,
        Seq<Sender<String>>,
        Seq<Sender<()>>,
    ) {
        (
            self.sender_channel@,
            self.filter_channel@,
            self.unsubscribe_channel@,
            self.close_channel@,
        )
    }

    /// A pool has one worker for each of its relays, and one queue of each
    /// kind for each worker: the worker at a place is that of the relay at
    /// that place, and what is reported of it names that relay's url.
    pub proof fn law_one_worker_for_each_relay(&self)
        requires
            self.wf(),
        ensures
            self@.states.len() == self@.relays.len(),
            self.queues().0.len() == self@.relays.len(),
            self.queues().1.len() == self@.relays.len(),
            self.queues().2.len() == self@.relays.len(),
            self.queues().3.len() == self@.relays.len(),
    {
    }

    /// Opens the four queues of each relay's worker. Returns the sending
    /// ends, one list for each kind of command, and the workers' links, which
    /// hold the receiving ends.
    pub fn read_relay(relays: &Vec<UserRelay>) -> (queues: (
        Vec<Sender<Message>>,
        Vec<Sender<Subscription>>,
        Vec<Sender<String>>,
        Vec<Sender<()>>,
        Vec<WorkerLink>,
    ))
        ensures
            queues.0.len() == relays.len(),
            queues.1.len() == relays.len(),
            queues.2.len() == relays.len(),
            queues.3.len() == relays.len(),
            links_of(queues.4@, relays_view(relays@)),
    {
        let mut send_note_channels: Vec<Sender<Message>> = Vec::new();
        let mut filter_channels: Vec<Sender<Subscription>> = Vec::new();
        let mut unsubscribe_channels: Vec<Sender<String>> = Vec::new();
        let mut close_channels: Vec<Sender<()>> = Vec::new();
        let mut links: Vec<WorkerLink> = Vec::new();
        let mut i: usize = 0;
        while i < relays.len()
            invariant
                i <= relays.len(),
                send_note_channels.len() == i,
                filter_channels.len() == i,
                unsubscribe_channels.len() == i,
                close_channels.len() == i,
                links.len() == i,
                forall|k: int|
                    0 <= k < i ==> (#[trigger] links[k]).index == k && links[k].url@
                        == relays[k].url@,
            decreases relays.len() - i,
        {
            let (send_note_tx, send_note_rx) = open_queue::<Message>();
            let (filter_tx, filter_rx) = open_queue::<Subscription>();
            let (unsubscribe_tx, unsubscribe_rx) = open_queue::<String>();
            let (close_tx, close_rx) = open_queue::<()>();
            send_note_channels.push(send_note_tx);
            filter_channels.push(filter_tx);
            unsubscribe_channels.push(unsubscribe_tx);
            close_channels.push(close_tx);
            links.push(
                WorkerLink {
                    index: i,
                    url: relays[i].url.clone(),
                    notes: send_note_rx,
                    filters: filter_rx,
                    cancellations: unsubscribe_rx,
                    closes: close_rx,
                },
            );
            i = i + 1;
        }
        (send_note_channels, filter_channels, unsubscribe_channels, close_channels, links)
    }

    /// Makes the pool for the given relays, with one worker for each. The
    /// workers are connecting; their links are returned beside the pool, for
    /// the application to start them.
    pub fn create(props: RelayContextProps) -> (made: (RelayPool, Vec<WorkerLink>))
        ensures
            made.0.wf(),
            made.0@ == fresh_pool(relays_view(props.user_relays@)),
            links_of(made.1@, relays_view(props.user_relays@)),
    {
        let relays = props.user_relays;
        let (sender_channel, filter_channel, unsubscribe_channel, close_channel, links) =
            Self::read_relay(&relays);
        let mut states: Vec<WorkerState> = Vec::new();
        let mut i: usize = 0;
        while i < relays.len()
            invariant
                i <= relays.len(),
                states.len() == i,
                forall|k: int| 0 <= k < i ==> states[k] == WorkerState::Connecting,
            decreases relays.len() - i,
        {
            states.push(WorkerState::Connecting);
            i = i + 1;
        }
        let pool = RelayPool {
            relays,
            states,
            aggregator: Aggregator::new(),
            sender_channel,
            filter_channel,
            unsubscribe_channel,
            close_channel,
        };
        assert(pool@.states =~= fresh_pool(relays_view(props.user_relays@)).states);
        (pool, links)
    }

    /// Takes one action: routes a command, takes in an event, or follows a
    /// worker's report.
    pub fn update(&mut self, msg: RelayAction) -> (outcome: Outcome)
        requires
            old(self).wf(),
        ensures
            final(self).wf(),
            final(self).queues() == old(self).queues(),
            final(self)@ == after(old(self)@, msg@),
            notifications_view(outcome.notifications@) == reports(old(self)@, msg@),
            is_command(msg@) ==> routed(old(self)@.states, outcome.deliveries@),
            !is_command(msg@) ==> outcome.deliveries@.len() == 0,
    {
        match msg {
            RelayAction::SendNote(note) => {
                let deliveries = self.send_nostr_note(note);
                let notifications: Vec<Notification> = Vec::new();
                assert(notifications_view(notifications@) =~= Seq::empty());
                Outcome { deliveries, notifications }
            },
            RelayAction::Subscribe(filter) => {
                let deliveries = self.subscribe(filter);
                let notifications: Vec<Notification> = Vec::new();
                assert(notifications_view(notifications@) =~= Seq::empty());
                Outcome { deliveries, notifications }
            },
            RelayAction::Unsubscribe(filter) => {
                let deliveries = self.unsubscribe(filter);
                let notifications: Vec<Notification> = Vec::new();
                assert(notifications_view(notifications@) =~= Seq::empty());
                Outcome { deliveries, notifications }
            },
            RelayAction::Close => self.close_ws(),
            RelayAction::Event(event) => {
                let fresh = self.add_event(event);
                let mut notifications: Vec<Notification> = Vec::new();
                if fresh {
                    notifications.push(Notification::NewEvent);
                }
                assert(notifications_view(notifications@) =~= reports(old(self)@, msg@));
                Outcome { deliveries: Vec::new(), notifications }
            },
            RelayAction::Worker(index, event) => {
                let reported = self.worker_event(index, &event);
                let mut notifications: Vec<Notification> = Vec::new();
                if let Some(notification) = reported {
                    notifications.push(notification);
                }
                assert(notifications_view(notifications@) =~= reports(old(self)@, msg@));
                Outcome { deliveries: Vec::new(), notifications }
            },
        }
    }

    /// Takes a frame that the worker with the given index has received from
    /// its relay. A frame that means an event is taken in as that event; a
    /// malformed one is dropped and reported, and the worker goes on.
    pub fn receive(&mut self, worker: usize, frame: &String) -> (outcome: Outcome)
        requires
            old(self).wf(),
        ensures
            final(self).wf(),
            final(self).queues() == old(self).queues(),
            final(self)@ == after(old(self)@, action_of(worker as int, frame_meaning(frame@))),
            notifications_view(outcome.notifications@) == reports(
                old(self)@,
                action_of(worker as int, frame_meaning(frame@)),
            ),
            outcome.deliveries@.len() == 0,
    {
        self.received(worker, interpret(frame))
    }

    /// Takes what a frame means, after the worker with the given index has
    /// received and read it: the event, or the reason why the frame is
    /// malformed.
    pub fn received(&mut self, worker: usize, meaning: Result<RelayEvent, String>) -> (outcome:
        Outcome)
        requires
            old(self).wf(),
        ensures
            final(self).wf(),
            final(self).queues() == old(self).queues(),
            final(self)@ == after(old(self)@, action_of(worker as int, meaning_view(meaning))),
            notifications_view(outcome.notifications@) == reports(
                old(self)@,
                action_of(worker as int, meaning_view(meaning)),
            ),
            outcome.deliveries@.len() == 0,
    {
        match meaning {
            Ok(event) => self.update(RelayAction::Event(event)),
            Err(reason) => self.update(
                RelayAction::Worker(worker, WorkerEvent::MalformedEvent(reason)),
            ),
        }
    }

    /// Tears the pool down: asks every live worker to close its connection,
    /// as `close_ws` does.
    pub fn destroy(&mut self) -> (outcome: Outcome)
        requires
            old(self).wf(),
        ensures
            final(self).wf(),
            final(self).queues() == old(self).queues(),
            final(self)@ == after(old(self)@, RelayActionView::Close),
            notifications_view(outcome.notifications@) == reports(
                old(self)@,
                RelayActionView::Close,
            ),
            routed(old(self)@.states, outcome.deliveries@),
    {
        self.close_ws()
    }

    /// Copies the two streams for those who read them.
    pub fn build_props(&self) -> (props: NostrProps)
        requires
            self.wf(),
        ensures
            events_view(props.relay_events@) == self@.arrivals,
            messages_view(props.notes@) == merged_of(self@.arrivals),
    {
        NostrProps {
            relay_events: clone_events(self.aggregator.raw_events()),
            notes: clone_messages(self.aggregator.events()),
        }
    }

    /// Publishes a message: offers it to every live worker.
    pub fn send_nostr_note(&self, signed_note: Message) -> (deliveries: Vec<Delivery>)
        requires
            self.wf(),
        ensures
            routed(self@.states, deliveries@),
    {
        fan_out(&self.sender_channel, &self.states, &signed_note)
    }

    /// Offers a subscription to every live worker.
    pub fn subscribe(&self, filter: Subscription) -> (deliveries: Vec<Delivery>)
        requires
            self.wf(),
        ensures
            routed(self@.states, deliveries@),
    {
        fan_out(&self.filter_channel, &self.states, &filter)
    }

    /// Asks every live worker to cancel the subscription with the given id.
    /// The id need not belong to a subscription that was made.
    pub fn unsubscribe(&self, filter: String) -> (deliveries: Vec<Delivery>)
        requires
            self.wf(),
        ensures
            routed(self@.states, deliveries@),
    {
        fan_out(&self.unsubscribe_channel, &self.states, &filter)
    }

    /// Takes in one event from a relay. The raw stream gets every event; the
    /// merged stream gets the message of an event that is fresh. Returns
    /// whether it was fresh.
    pub fn add_event(&mut self, event: RelayEvent) -> (fresh: bool)
        requires
            old(self).wf(),
        ensures
            final(self).wf(),
            final(self).queues() == old(self).queues(),
            final(self)@ == after(old(self)@, RelayActionView::Event(event@)),
            fresh == is_fresh(old(self)@.arrivals, event@),
    {
        self.aggregator.ingest(event)
    }

    /// Asks every live worker to close its connection. The connected ones
    /// are closed from then on, and the end of each one's connection is
    /// reported. For a worker that is still connecting the request waits on
    /// its queue, and the worker stays as it is.
    pub fn close_ws(&mut self) -> (outcome: Outcome)
        requires
            old(self).wf(),
        ensures
            final(self).wf(),
            final(self).queues() == old(self).queues(),
            final(self)@ == after(old(self)@, RelayActionView::Close),
            notifications_view(outcome.notifications@) == reports(
                old(self)@,
                RelayActionView::Close,
            ),
            routed(old(self)@.states, outcome.deliveries@),
    {
        let deliveries = fan_out(&self.close_channel, &self.states, &());
        let mut notifications: Vec<Notification> = Vec::new();
        let ghost relays = relays_view(self.relays@);
        let ghost states = self.states@;
        let mut i: usize = 0;
        assert(notifications_view(notifications@) =~= close_reports(relays.take(0), states.take(0)));
        while i < self.states.len()
            invariant
                self.wf(),
                self.queues() == old(self).queues(),
                self.relays == old(self).relays,
                self.aggregator == old(self).aggregator,
                relays == relays_view(self.relays@),
                states == old(self).states@,
                self.states.len() == states.len(),
                i <= states.len(),
                forall|k: int|
                    0 <= k < i ==> self.states[k] == if states[k] == WorkerState::Connected {
                        WorkerState::Closed
                    } else {
                        states[k]
                    },
                forall|k: int| i <= k < states.len() ==> self.states[k] == states[k],
                notifications_view(notifications@) == close_reports(
                    relays.take(i as int),
                    states.take(i as int),
                ),
            decreases states.len() - i,
        {
            let (next, reported) = self.states[i].advance(
                &WorkerEvent::CloseRequested,
                &self.relays[i].url,
            );
            self.states.set(i, next);
            proof {
                assert(relays.take(i + 1).drop_last() =~= relays.take(i as int));
                assert(states.take(i + 1).drop_last() =~= states.take(i as int));
                assert(relays.take(i + 1).last() == relays[i as int]);
                assert(states.take(i + 1).last() == states[i as int]);
            }
            match reported {
                Some(notification) => {
                    notifications.push(notification);
                    assert(notifications_view(notifications@) =~= close_reports(
                        relays.take(i as int),
                        states.take(i as int),
                    ).push(notification@));
                },
                None => {},
            }
            i = i + 1;
        }
        proof {
            assert(relays.take(i as int) =~= relays);
            assert(states.take(i as int) =~= states);
            assert(self.states@ =~= closed_states(states));
        }
        Outcome { deliveries, notifications }
    }

    /// Follows what has happened to the worker with the given index: moves
    /// the worker to its next state and returns what is to be reported. An
    /// index that belongs to no worker changes nothing.
    pub fn worker_event(&mut self, index: usize, event: &WorkerEvent) -> (reported: Option<
        Notification,
    >)
        requires
            old(self).wf(),
        ensures
            final(self).wf(),
            final(self).queues() == old(self).queues(),
            final(self)@ == after(old(self)@, RelayActionView::Worker(index as int, event@)),
            match reported {
                Some(notification) => reports(
                    old(self)@,
                    RelayActionView::Worker(index as int, event@),
                ) == seq![notification@],
                None => reports(old(self)@, RelayActionView::Worker(index as int, event@))
                    == Seq::<NotificationView>::empty(),
            },
    {
        if index < self.states.len() {
            let (next, reported) = self.states[index].advance(event, &self.relays[index].url);
            self.states.set(index, next);
            reported
        } else {
            None
        }
    }

    /// The merged stream: one message of each identity, in the order in
    /// which the identities first arrived.
    pub fn events(&self) -> (merged: &Vec<Message>)
        requires
            self.wf(),
        ensures
            messages_view(merged@) == merged_of(self@.arrivals),
    {
        self.aggregator.events()
    }

    /// The raw stream: every arrival, in order.
    pub fn raw_events(&self) -> (raw: &Vec<RelayEvent>)
        ensures
            events_view(raw@) == self@.arrivals,
    {
        self.aggregator.raw_events()
    }

    /// The configured relays, in order.
    pub fn relays(&self) -> (relays: &Vec<UserRelay>)
        ensures
            relays_view(relays@) == self@.relays,
    {
        &self.relays
    }

    /// The state of each relay's worker.
    pub fn worker_states(&self) -> (states: &Vec<WorkerState>)
        ensures
            states@ == self@.states,
    {
        &self.states
    }
}

} // verus!
