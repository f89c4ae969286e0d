//! The values that travel through the pool: signed messages, subscriptions
//! and the events that a relay pushes back.

use vstd::prelude::*;

verus! {

/// A signed message as the pool sees it. The pool reads nothing but `id`,
/// which tells two logical messages apart; `content` is carried through
/// untouched.
#[derive(Debug, PartialEq, Eq)]
pub struct Message {
    pub id: String,
    pub content: String,
}

/// The mathematical value of a [`Message`].
pub struct MessageView {
    pub id: Seq<char>,
    pub content: Seq<char>,
}

impl View for Message {
    type V = MessageView;

    open spec fn view(&self) -> MessageView {
        MessageView { id: self.id@, content: self.content@ }
    }
}

impl Clone for Message {
    fn clone(&self) -> (copy: Self)
        ensures
            copy@ == self@,
    {
        Message { id: self.id.clone(), content: self.content.clone() }
    }
}

/// A request for events. The pool reads nothing but `id`, under which the
/// subscription is later cancelled; `filters` is carried through untouched.
#[derive(Debug, PartialEq, Eq)]
pub struct Subscription {
    pub id: String,
    pub filters: String,
}

/// The mathematical value of a [`Subscription`].
pub struct SubscriptionView {
    pub id: Seq<char>,
    pub filters: Seq<char>,
}

impl View for Subscription {
    type V = SubscriptionView;

    open spec fn view(&self) -> SubscriptionView {
        SubscriptionView { id: self.id@, filters: self.filters@ }
    }
}

impl Clone for Subscription {
    fn clone(&self) -> (copy: Self)
        ensures
            copy@ == self@,
    {
        Subscription { id: self.id.clone(), filters: self.filters.clone() }
    }
}

/// What a relay pushes to a worker.
#[derive(Debug, PartialEq, Eq)]
pub enum RelayEvent {
    /// A message that matches the subscription with the given id.
    Event(String, Message),
    /// The relay has sent everything it had stored for the subscription.
    EndOfStoredEvents(String),
    /// A notice, or anything else the relay says.
    NoticeOrOther(String),
}

/// The mathematical value of a [`RelayEvent`].
pub enum RelayEventView {
    Event(Seq<char>, MessageView),
    EndOfStoredEvents(Seq<char>),
    NoticeOrOther(Seq<char>),
}

impl View for RelayEvent {
    type V = RelayEventView;

    open spec fn view(&self) -> RelayEventView {
        match self {
            RelayEvent::Event(subscription, message) => RelayEventView::Event(
                subscription@,
                message@,
            ),
            RelayEvent::EndOfStoredEvents(subscription) => RelayEventView::EndOfStoredEvents(
                subscription@,
            ),
            RelayEvent::NoticeOrOther(text) => RelayEventView::NoticeOrOther(text@),
        }
    }
}

impl Clone for RelayEvent {
    fn clone(&self) -> (copy: Self)
        ensures
            copy@ == self@,
    {
        match self {
            RelayEvent::Event(subscription, message) => RelayEvent::Event(
                subscription.clone(),
                message.clone(),
            ),
            RelayEvent::EndOfStoredEvents(subscription) => RelayEvent::EndOfStoredEvents(
                subscription.clone(),
            ),
            RelayEvent::NoticeOrOther(text) => RelayEvent::NoticeOrOther(text.clone()),
        }
    }
}

/// The values of a sequence of messages, in order.
pub open spec fn messages_view(messages: Seq<Message>) -> Seq<MessageView> {
    messages.map_values(|m: Message| m@)
}

/// The values of a sequence of relay events, in order.
pub open spec fn events_view(events: Seq<RelayEvent>) -> Seq<RelayEventView> {
    events.map_values(|e: RelayEvent| e@)
}

/// Copies a list of messages.
pub fn clone_messages(messages: &Vec<Message>) -> (copy: Vec<Message>)
    ensures
        messages_view(copy@) == messages_view(messages@),
{
    let mut copy: Vec<Message> = Vec::new();
    let mut i: usize = 0;
    while i < messages.len()
        invariant
            i <= messages.len(),
            copy.len() == i,
            forall|k: int| 0 <= k < i ==> copy[k]@ == messages[k]@,
        decreases messages.len() - i,
    {
        copy.push(messages[i].clone());
        i = i + 1;
    }
    assert(messages_view(copy@) =~= messages_view(messages@));
    copy
}

/// Copies a list of relay events.
pub fn clone_events(events: &Vec<RelayEvent>) -> (copy: Vec<RelayEvent>)
    ensures
        events_view(copy@) == events_view(events@),
{
    let mut copy: Vec<RelayEvent> = Vec::new();
    let mut i: usize = 0;
    while i < events.len()
        invariant
            i <= events.len(),
            copy.len() == i,
            forall|k: int| 0 <= k < i ==> copy[k]@ == events[k]@,
        decreases events.len() - i,
    {
        copy.push(events[i].clone());
        i = i + 1;
    }
    assert(events_view(copy@) =~= events_view(events@));
    copy
}

} // verus!
