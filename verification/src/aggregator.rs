//! The event aggregator: it merges what every worker receives into one raw
//! stream, which keeps every arrival, and one merged stream, which keeps the
//! first message of every identity and drops the later ones.
//!
//! The aggregator's mathematical value is the sequence of arrivals. The
//! merged stream and the set of delivered identities are functions of it.

use crate::event::{events_view, messages_view, Message, MessageView, RelayEvent, RelayEventView};
use vstd::hash_set::StringHashSet;
use vstd::prelude::*;

verus! {

/// `event` carries a message whose identity is `id`.
pub open spec fn carries(event: RelayEventView, id: Seq<char>) -> bool {
    event matches RelayEventView::Event(_, message) && message.id == id
}

/// The identities of all messages that have arrived.
pub open spec fn delivered_ids(arrivals: Seq<RelayEventView>) -> Set<Seq<char>> {
    Set::new(
        |id: Seq<char>| exists|i: int| 0 <= i < arrivals.len() && carries(#[trigger] arrivals[i], id),
    )
}

/// `event` carries a message whose identity has not arrived before.
pub open spec fn is_fresh(arrivals: Seq<RelayEventView>, event: RelayEventView) -> bool {
    event matches RelayEventView::Event(_, message) && !delivered_ids(arrivals).contains(
        message.id,
    )
}

/// The merged stream: the messages of the arrivals, each identity at the
/// place of its first arrival and nowhere else.
pub open spec fn merged_of(arrivals: Seq<RelayEventView>) -> Seq<MessageView>
    decreases arrivals.len(),
{
    if arrivals.len() == 0 {
        Seq::empty()
    } else {
        let earlier = arrivals.drop_last();
        match arrivals.last() {
            RelayEventView::Event(_, message) => if delivered_ids(earlier).contains(message.id) {
                merged_of(earlier)
            } else {
                merged_of(earlier).push(message)
            },
            _ => merged_of(earlier),
        }
    }
}

/// How many of `messages` have the identity `id`.
pub open spec fn occurrences(messages: Seq<MessageView>, id: Seq<char>) -> nat
    decreases messages.len(),
{
    if messages.len() == 0 {
        0
    } else {
        occurrences(messages.drop_last(), id) + if messages.last().id == id {
            1nat
        } else {
            0nat
        }
    }
}

/// The arrival at `index` is the first one that carries its message's
/// identity.
pub open spec fn is_first_arrival(arrivals: Seq<RelayEventView>, index: int) -> bool {
    &&& 0 <= index < arrivals.len()
    &&& arrivals[index] is Event
    &&& forall|j: int|
        0 <= j < index ==> !carries(#[trigger] arrivals[j], arrivals[index]->Event_1.id)
}

/// One more arrival adds its message's identity to the delivered ones, if it
/// carries a message, and changes nothing otherwise.
pub proof fn lemma_delivered_ids_push(arrivals: Seq<RelayEventView>, event: RelayEventView)
    ensures
        delivered_ids(arrivals.push(event)) == match event {
            RelayEventView::Event(_, message) => delivered_ids(arrivals).insert(message.id),
            _ => delivered_ids(arrivals),
        },
{
    let longer = arrivals.push(event);
    let expected = match event {
        RelayEventView::Event(_, message) => delivered_ids(arrivals).insert(message.id),
        _ => delivered_ids(arrivals),
    };
    assert forall|id: Seq<char>| delivered_ids(longer).contains(id) implies expected.contains(
        id,
    ) by {
        let i = choose|i: int| 0 <= i < longer.len() && carries(#[trigger] longer[i], id);
        if i < arrivals.len() {
            assert(carries(arrivals[i], id));
        }
    }
    assert forall|id: Seq<char>| expected.contains(id) implies delivered_ids(longer).contains(
        id,
    ) by {
        if delivered_ids(arrivals).contains(id) {
            let i = choose|i: int| 0 <= i < arrivals.len() && carries(#[trigger] arrivals[i], id);
            assert(carries(longer[i], id));
        } else {
            assert(carries(longer[arrivals.len() as int], id));
        }
    }
    assert(delivered_ids(longer) =~= expected);
}

/// One more arrival appends its message to the merged stream if it is fresh,
/// and leaves the merged stream as it was otherwise.
pub proof fn lemma_merged_push(arrivals: Seq<RelayEventView>, event: RelayEventView)
    ensures
        merged_of(arrivals.push(event)) == if is_fresh(arrivals, event) {
            merged_of(arrivals).push(event->Event_1)
        } else {
            merged_of(arrivals)
        },
{
    assert(arrivals.push(event).drop_last() =~= arrivals);
}

/// Nothing has been delivered before the first arrival.
pub proof fn lemma_nothing_delivered_at_start()
    ensures
        delivered_ids(Seq::<RelayEventView>::empty()) == Set::<Seq<char>>::empty(),
        merged_of(Seq::<RelayEventView>::empty()) == Seq::<MessageView>::empty(),
{
    assert(delivered_ids(Seq::<RelayEventView>::empty()) =~= Set::<Seq<char>>::empty());
}

proof fn lemma_occurrences_push(messages: Seq<MessageView>, message: MessageView, id: Seq<char>)
    ensures
        occurrences(messages.push(message), id) == occurrences(messages, id) + if message.id
            == id {
            1nat
        } else {
            0nat
        },
{
    assert(messages.push(message).drop_last() =~= messages);
}

/// Whatever arrives, in whatever order and from whichever worker, the merged
/// stream holds exactly one message of every identity that has arrived and
/// none of any other.
pub proof fn law_one_delivery_per_identity(arrivals: Seq<RelayEventView>, id: Seq<char>)
    ensures
        occurrences(merged_of(arrivals), id) == if delivered_ids(arrivals).contains(id) {
            1nat
        } else {
            0nat
        },
    decreases arrivals.len(),
{
    if arrivals.len() == 0 {
        lemma_nothing_delivered_at_start();
        assert(arrivals =~= Seq::<RelayEventView>::empty());
    } else {
        let earlier = arrivals.drop_last();
        let event = arrivals.last();
        assert(earlier.push(event) =~= arrivals);
        law_one_delivery_per_identity(earlier, id);
        lemma_delivered_ids_push(earlier, event);
        lemma_merged_push(earlier, event);
        if is_fresh(earlier, event) {
            lemma_occurrences_push(merged_of(earlier), event->Event_1, id);
        }
    }
}

/// The merged stream has as many messages as there are delivered identities,
/// and these are finitely many.
pub proof fn law_merged_length(arrivals: Seq<RelayEventView>)
    ensures
        delivered_ids(arrivals).finite(),
        merged_of(arrivals).len() == delivered_ids(arrivals).len(),
    decreases arrivals.len(),
{
    if arrivals.len() == 0 {
        lemma_nothing_delivered_at_start();
        assert(arrivals =~= Seq::<RelayEventView>::empty());
    } else {
        let earlier = arrivals.drop_last();
        let event = arrivals.last();
        assert(earlier.push(event) =~= arrivals);
        law_merged_length(earlier);
        lemma_delivered_ids_push(earlier, event);
        lemma_merged_push(earlier, event);
    }
}

/// Every message of the merged stream is the one that arrived first under
/// its identity: a later arrival of the same identity never replaces it.
pub proof fn law_first_writer_wins(arrivals: Seq<RelayEventView>, position: int)
    requires
        0 <= position < merged_of(arrivals).len(),
    ensures
        exists|index: int|
            is_first_arrival(arrivals, index) && (#[trigger] arrivals[index])->Event_1
                == merged_of(arrivals)[position],
    decreases arrivals.len(),
{
    if arrivals.len() > 0 {
        let earlier = arrivals.drop_last();
        let event = arrivals.last();
        assert(earlier.push(event) =~= arrivals);
        lemma_merged_push(earlier, event);
        if position < merged_of(earlier).len() {
            law_first_writer_wins(earlier, position);
            let index = choose|index: int|
                is_first_arrival(earlier, index) && (#[trigger] earlier[index])->Event_1
                    == merged_of(earlier)[position];
            assert(is_first_arrival(arrivals, index)) by {
                assert forall|j: int| 0 <= j < index implies !carries(
                    #[trigger] arrivals[j],
                    arrivals[index]->Event_1.id,
                ) by {
                    assert(!carries(earlier[j], earlier[index]->Event_1.id));
                }
            }
            assert(arrivals[index]->Event_1 == merged_of(arrivals)[position]);
        } else {
            let index = arrivals.len() - 1;
            assert(is_fresh(earlier, event));
            assert(is_first_arrival(arrivals, index)) by {
                assert forall|j: int| 0 <= j < index implies !carries(
                    #[trigger] arrivals[j],
                    arrivals[index]->Event_1.id,
                ) by {
                    if carries(arrivals[j], event->Event_1.id) {
                        assert(carries(earlier[j], event->Event_1.id));
                        assert(delivered_ids(earlier).contains(event->Event_1.id));
                    }
                }
            }
            assert(arrivals[index]->Event_1 == merged_of(arrivals)[position]);
        }
    }
}

/// The message of every first arrival is in the merged stream.
pub proof fn law_every_first_arrival_is_merged(arrivals: Seq<RelayEventView>, index: int)
    requires
        is_first_arrival(arrivals, index),
    ensures
        exists|position: int|
            0 <= position < merged_of(arrivals).len() && #[trigger] merged_of(arrivals)[position]
                == arrivals[index]->Event_1,
    decreases arrivals.len(),
{
    let earlier = arrivals.drop_last();
    let event = arrivals.last();
    assert(earlier.push(event) =~= arrivals);
    lemma_merged_push(earlier, event);
    if index == arrivals.len() - 1 {
        if delivered_ids(earlier).contains(event->Event_1.id) {
            let j = choose|j: int|
                0 <= j < earlier.len() && carries(#[trigger] earlier[j], event->Event_1.id);
            assert(carries(arrivals[j], arrivals[index]->Event_1.id));
        }
        assert(is_fresh(earlier, event));
        assert(merged_of(arrivals)[merged_of(earlier).len() as int] == event->Event_1);
    } else {
        assert(is_first_arrival(earlier, index)) by {
            assert forall|j: int| 0 <= j < index implies !carries(
                #[trigger] earlier[j],
                earlier[index]->Event_1.id,
            ) by {
                assert(!carries(arrivals[j], arrivals[index]->Event_1.id));
            }
        }
        law_every_first_arrival_is_merged(earlier, index);
        let position = choose|position: int|
            0 <= position < merged_of(earlier).len() && #[trigger] merged_of(earlier)[position]
                == earlier[index]->Event_1;
        assert(merged_of(arrivals)[position] == arrivals[index]->Event_1);
    }
}

/// The merged stream is in the order of the first arrivals: of two of its
/// messages, the one that stands first is the one that arrived first.
pub proof fn law_merged_keeps_arrival_order(
    arrivals: Seq<RelayEventView>,
    first: int,
    second: int,
    first_index: int,
    second_index: int,
)
    requires
        0 <= first < second < merged_of(arrivals).len(),
        is_first_arrival(arrivals, first_index),
        arrivals[first_index]->Event_1 == merged_of(arrivals)[first],
        is_first_arrival(arrivals, second_index),
        arrivals[second_index]->Event_1 == merged_of(arrivals)[second],
    ensures
        first_index < second_index,
    decreases arrivals.len(),
{
    let earlier = arrivals.drop_last();
    let event = arrivals.last();
    let last = arrivals.len() - 1;
    assert(earlier.push(event) =~= arrivals);
    lemma_merged_push(earlier, event);
    // A message that the earlier arrivals have merged did not arrive last.
    assert(first_index < last) by {
        law_first_writer_wins(earlier, first);
        let i = choose|i: int|
            is_first_arrival(earlier, i) && (#[trigger] earlier[i])->Event_1 == merged_of(
                earlier,
            )[first];
        assert(carries(arrivals[i], arrivals[first_index]->Event_1.id));
    }
    if second < merged_of(earlier).len() {
        assert(second_index < last) by {
            law_first_writer_wins(earlier, second);
            let i = choose|i: int|
                is_first_arrival(earlier, i) && (#[trigger] earlier[i])->Event_1 == merged_of(
                    earlier,
                )[second];
            assert(carries(arrivals[i], arrivals[second_index]->Event_1.id));
        }
        assert(is_first_arrival(earlier, first_index)) by {
            assert forall|j: int| 0 <= j < first_index implies !carries(
                #[trigger] earlier[j],
                earlier[first_index]->Event_1.id,
            ) by {
                assert(!carries(arrivals[j], arrivals[first_index]->Event_1.id));
            }
        }
        assert(is_first_arrival(earlier, second_index)) by {
            assert forall|j: int| 0 <= j < second_index implies !carries(
                #[trigger] earlier[j],
                earlier[second_index]->Event_1.id,
            ) by {
                assert(!carries(arrivals[j], arrivals[second_index]->Event_1.id));
            }
        }
        law_merged_keeps_arrival_order(earlier, first, second, first_index, second_index);
    } else {
        // The second message is the one that has just been merged: it
        // arrived last, for no earlier arrival carries its identity.
        assert(is_fresh(earlier, event));
        if second_index < last {
            assert(carries(earlier[second_index], event->Event_1.id));
            assert(delivered_ids(earlier).contains(event->Event_1.id));
        }
    }
}

/// What has been delivered stays delivered: further arrivals only append to
/// the merged stream and only add to the delivered identities.
pub proof fn law_delivered_only_grows(arrivals: Seq<RelayEventView>, further: Seq<RelayEventView>)
    ensures
        delivered_ids(arrivals).subset_of(delivered_ids(arrivals + further)),
        merged_of(arrivals).is_prefix_of(merged_of(arrivals + further)),
    decreases further.len(),
{
    if further.len() == 0 {
        assert(arrivals + further =~= arrivals);
    } else {
        let shorter = further.drop_last();
        let event = further.last();
        assert((arrivals + shorter).push(event) =~= arrivals + further);
        law_delivered_only_grows(arrivals, shorter);
        lemma_delivered_ids_push(arrivals + shorter, event);
        lemma_merged_push(arrivals + shorter, event);
    }
}

/// The raw stream keeps every arrival: one more arrival of an event is one
/// more occurrence of it in the raw stream, whether or not the same event
/// came before, and the occurrences of every other event stay as they were.
/// An arrival that carries no message leaves the merged stream as it was.
pub proof fn law_every_arrival_is_kept(arrivals: Seq<RelayEventView>, event: RelayEventView)
    ensures
        arrivals.push(event).to_multiset().count(event) == arrivals.to_multiset().count(event)
            + 1,
        forall|other: RelayEventView|
            other != event ==> arrivals.push(event).to_multiset().count(other)
                == #[trigger] arrivals.to_multiset().count(other),
        !(event is Event) ==> merged_of(arrivals.push(event)) == merged_of(arrivals),
{
    arrivals.to_multiset_ensures();
    lemma_merged_push(arrivals, event);
}

/// Two runs in which the same events arrive, in any two orders, deliver the
/// same identities, each of them once.
pub proof fn law_arrival_order_is_immaterial(
    first: Seq<RelayEventView>,
    second: Seq<RelayEventView>,
)
    requires
        first.to_multiset() == second.to_multiset(),
    ensures
        delivered_ids(first) == delivered_ids(second),
        merged_of(first).len() == merged_of(second).len(),
        forall|id: Seq<char>|
            occurrences(merged_of(first), id) == occurrences(#[trigger] merged_of(second), id),
{
    first.to_multiset_ensures();
    second.to_multiset_ensures();
    assert forall|id: Seq<char>| delivered_ids(first).contains(id) implies delivered_ids(
        second,
    ).contains(id) by {
        let i = choose|i: int| 0 <= i < first.len() && carries(#[trigger] first[i], id);
        assert(first.contains(first[i]));
        assert(first.to_multiset().count(first[i]) > 0);
        assert(second.to_multiset().count(first[i]) > 0);
        assert(second.contains(first[i]));
        let j = choose|j: int| 0 <= j < second.len() && second[j] == first[i];
        assert(carries(second[j], id));
    }
    assert forall|id: Seq<char>| delivered_ids(second).contains(id) implies delivered_ids(
        first,
    ).contains(id) by {
        let i = choose|i: int| 0 <= i < second.len() && carries(#[trigger] second[i], id);
        assert(second.contains(second[i]));
        assert(second.to_multiset().count(second[i]) > 0);
        assert(first.to_multiset().count(second[i]) > 0);
        assert(first.contains(second[i]));
        let j = choose|j: int| 0 <= j < first.len() && first[j] == second[i];
        assert(carries(first[j], id));
    }
    assert(delivered_ids(first) =~= delivered_ids(second));
    law_merged_length(first);
    law_merged_length(second);
    assert forall|id: Seq<char>|
        occurrences(merged_of(first), id) == occurrences(#[trigger] merged_of(second), id) by {
        law_one_delivery_per_identity(first, id);
        law_one_delivery_per_identity(second, id);
    }
}

/// The event aggregator.
pub struct Aggregator {
    raw: Vec<RelayEvent>,
    merged: Vec<Message>,
    seen: StringHashSet,
}

impl View for Aggregator {
    type V = Seq<RelayEventView>;

    /// Everything that has arrived, in order of arrival.
    closed spec fn view(&self) -> Seq<RelayEventView> {
        events_view(self.raw@)
    }
}

impl Aggregator {
    /// The merged stream and the set of delivered identities are what the
    /// arrivals make them.
    pub closed spec fn wf(&self) -> bool {
        &&& messages_view(self.merged@) == merged_of(self@)
        &&& self.seen@ == delivered_ids(self@)
    }

    /// An aggregator to which nothing has arrived yet.
    pub fn new() -> (aggregator: Self)
        ensures
            aggregator.wf(),
            aggregator@ == Seq::<RelayEventView>::empty(),
    {
        let aggregator = Aggregator {
            raw: Vec::new(),
            merged: Vec::new(),
            seen: StringHashSet::new(),
        };
        proof {
            lemma_nothing_delivered_at_start();
            assert(aggregator@ =~= Seq::<RelayEventView>::empty());
            assert(messages_view(aggregator.merged@) =~= Seq::<MessageView>::empty());
        }
        aggregator
    }

    /// Takes in one arrival. The raw stream gets every arrival; the merged
    /// stream gets the message of a fresh one. Returns whether it was fresh.
    pub fn ingest(&mut self, event: RelayEvent) -> (fresh: bool)
        requires
            old(self).wf(),
        ensures
            final(self).wf(),
            final(self)@ == old(self)@.push(event@),
            fresh == is_fresh(old(self)@, event@),
    {
        proof {
            lemma_delivered_ids_push(self@, event@);
            lemma_merged_push(self@, event@);
        }
        let mut fresh = false;
        match &event {
            RelayEvent::Event(_, message) => {
                if !self.seen.contains(message.id.as_str()) {
                    self.seen.insert(message.id.clone());
                    self.merged.push(message.clone());
                    fresh = true;
                    assert(messages_view(self.merged@) =~= messages_view(old(self).merged@).push(
                        message@,
                    ));
                }
            },
            _ => {},
        }
        self.raw.push(event);
        proof {
            assert(events_view(self.raw@) =~= events_view(old(self).raw@).push(event@));
            assert(fresh == is_fresh(old(self)@, event@));
            assert(messages_view(self.merged@) == merged_of(self@));
            assert(self.seen@ == delivered_ids(self@));
        }
        fresh
    }

    /// The merged stream.
    pub fn events(&self) -> (merged: &Vec<Message>)
        requires
            self.wf(),
        ensures
            messages_view(merged@) == merged_of(self@),
    {
        &self.merged
    }

    /// The raw stream.
    pub fn raw_events(&self) -> (raw: &Vec<RelayEvent>)
        ensures
            events_view(raw@) == self@,
    {
        &self.raw
    }

    /// Whether a message with the identity `id` has been delivered.
    pub fn has_delivered(&self, id: &str) -> (delivered: bool)
        requires
            self.wf(),
        ensures
            delivered == delivered_ids(self@).contains(id@),
    {
        self.seen.contains(id)
    }
}

} // verus!
