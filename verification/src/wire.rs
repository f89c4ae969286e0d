//! What goes over the wire between a worker and its relay. A frame is a
//! line of text. The `nostro2` crate reads and writes frames; what this file
//! says of that crate is taken on trust from it, the rest is proved.

use crate::event::{Message, MessageView, RelayEvent, RelayEventView};
use nostro2::notes::SignedNote;
use nostro2::relays::RelayEvent as Frame;
use nostro2::relays::{
    CloseEvent, EndOfSubscriptionEvent, NostrSubscription, NoteEvent, NoticeEvent, OkEvent,
    RelayEventTag, SendNoteEvent, SubscribeEvent, SubscriptionClosedEvent,
};
use vstd::prelude::*;
use vstd::string::*;

verus! {

/// A frame as `nostro2` reads it.
#[derive(Debug, PartialEq, Eq)]
pub enum ParsedFrame {
    /// A frame of a tag, a text and a note: the tag's name, the text, and the
    /// note with its id and its text as JSON.
    Note(String, String, Message),
    /// The answer to a published note: the note's id, whether the relay took
    /// it, and what the relay says.
    Receipt(String, bool, String),
    /// A frame of a tag and one text: the tag's name, and the text.
    Short(String, String),
}

/// The mathematical value of a [`ParsedFrame`].
pub enum ParsedFrameView {
    Note(Seq<char>, Seq<char>, MessageView),
    Receipt(Seq<char>, bool, Seq<char>),
    Short(Seq<char>, Seq<char>),
}

impl View for ParsedFrame {
    type V = ParsedFrameView;

    open spec fn view(&self) -> ParsedFrameView {
        match self {
            ParsedFrame::Note(tag, text, message) => ParsedFrameView::Note(tag@, text@, message@),
            ParsedFrame::Receipt(id, accepted, text) => ParsedFrameView::Receipt(
                id@,
                *accepted,
                text@,
            ),
            ParsedFrame::Short(tag, text) => ParsedFrameView::Short(tag@, text@),
        }
    }
}

/// The value of what reading a frame gave: the frame's parts, or the reason
/// why it could not be read.
pub open spec fn reading_view(reading: Result<ParsedFrame, String>) -> Result<
    ParsedFrameView,
    Seq<char>,
> {
    match reading {
        Ok(parsed) => Ok(parsed@),
        Err(reason) => Err(reason@),
    }
}

/// What `nostro2` reads from a frame: its parts, or the reason why it is not
/// a frame. It depends on the frame's text and on nothing else.
pub uninterp spec fn frame_reading(frame: Seq<char>) -> Result<ParsedFrameView, Seq<char>>;

/// Reads a frame by `nostro2::relays::RelayEvent::try_from`, which parses the
/// text as JSON into one of the crate's frame types or gives the parser's
/// error. The parts are handed on as they were read, a tag by its name and a
/// note with its id and its JSON text; the error is handed on as its
/// message. What comes out is claimed to be `frame_reading` of the text, no
/// more.
#[verifier::external_body]
pub(crate) fn read_frame(frame: &String) -> (reading: Result<ParsedFrame, String>)
    ensures
        reading_view(reading) == frame_reading(frame@),
{
    match Frame::try_from(frame) {
        Ok(Frame::NewNote(NoteEvent(g, t, n))) => Ok(
            ParsedFrame::Note(format!("{:?}", g), t, Message { id: n.get_id(), content: n.into() }),
        ),
        Ok(Frame::SentOk(OkEvent(_, i, a, t))) => Ok(ParsedFrame::Receipt(i, a, t)),
        Ok(Frame::EndOfSubscription(EndOfSubscriptionEvent(g, t)))
        | Ok(Frame::ClosedSubscription(SubscriptionClosedEvent(g, t)))
        | Ok(Frame::Notice(NoticeEvent(g, t))) => Ok(ParsedFrame::Short(format!("{:?}", g), t)),
        Err(e) => Err(e.to_string()),
    }
}

/// The value of a text that was made, or of the reason why it could not be.
pub open spec fn text_view(text: Result<String, String>) -> Result<Seq<char>, Seq<char>> {
    match text {
        Ok(made) => Ok(made@),
        Err(reason) => Err(reason@),
    }
}

/// The frame that publishes a signed note, given the note as JSON, or the
/// reason why the text is not a signed note. It depends on the text and on
/// nothing else.
pub uninterp spec fn note_framing(note: Seq<char>) -> Result<Seq<char>, Seq<char>>;

/// Makes the frame that publishes a signed note. The note is read from its
/// JSON text by `nostro2::notes::SignedNote::try_from`, and the frame is what
/// `nostro2::relays::SendNoteEvent` with the tag `EVENT` gives as a `String`;
/// where the text is not a signed note, the parser's message comes back.
/// What comes out is claimed to be `note_framing` of the text, no more.
#[verifier::external_body]
pub(crate) fn frame_note(note: &String) -> (framed: Result<String, String>)
    ensures
        text_view(framed) == note_framing(note@),
{
    match SignedNote::try_from(note.as_str()) {
        Ok(n) => Ok(SendNoteEvent(RelayEventTag::EVENT, n).into()),
        Err(e) => Err(e.to_string()),
    }
}

/// The reason why a text cannot be read as the filters of a subscription,
/// or none where it can. It depends on the text and on nothing else.
pub uninterp spec fn filters_fault(filters: Seq<char>) -> Option<Seq<char>>;

/// The frames that ask for the subscription with the given id and filters.
/// There may be more than one: a filter's tags are written in the order in
/// which a hash map yields them, and every order gives a frame that asks
/// for the same. Which frames these are depends on the id and the filters
/// and on nothing else.
pub uninterp spec fn subscription_framings(id: Seq<char>, filters: Seq<char>) -> Set<Seq<char>>;

/// Makes the frame that asks for a subscription. The filters are read from
/// their JSON text by `serde_json::from_str` as a
/// `nostro2::relays::NostrSubscription`, and the frame is what
/// `nostro2::relays::SubscribeEvent` with the tag `REQ` and the given id
/// gives as a `String`; where the text is no such filter, the parser's
/// message comes back. Whether the text can be read, and the parser's
/// message where it cannot, is claimed to be `filters_fault` of the text.
/// Of the frame it is claimed that it is one of `subscription_framings` of
/// the id and the filters, no more: which one it is may differ from call to
/// call.
#[verifier::external_body]
pub(crate) fn frame_subscription(id: &String, filters: &String) -> (framed: Result<String, String>)
    ensures
        match framed {
            Ok(frame) => filters_fault(filters@) is None && subscription_framings(
                id@,
                filters@,
            ).contains(frame@),
            Err(reason) => filters_fault(filters@) == Some(reason@),
        },
{
    match serde_json::from_str::<NostrSubscription>(filters) {
        Ok(f) => Ok(SubscribeEvent(RelayEventTag::REQ, id.clone(), f).into()),
        Err(e) => Err(e.to_string()),
    }
}

/// The frame that cancels the subscription with the given id. It depends on
/// the id and on nothing else.
pub uninterp spec fn cancellation_framing(id: Seq<char>) -> Seq<char>;

/// Makes the frame that cancels a subscription: what
/// `nostro2::relays::CloseEvent` with the tag `CLOSE` and the given id gives
/// as a `String`. It is claimed to be `cancellation_framing` of the id, no
/// more.
#[verifier::external_body]
pub(crate) fn frame_cancellation(id: &String) -> (frame: String)
    ensures
        frame@ == cancellation_framing(id@),
{
    CloseEvent(RelayEventTag::CLOSE, id.clone()).into()
}

/// What the pool makes of a frame that was read: a note with the tag `EVENT`
/// is an event of the subscription that the text names, a short frame with
/// the tag `EOSE` ends the stored events of the subscription that the text
/// names, and every other frame is passed on as it came.
pub open spec fn event_of(parsed: ParsedFrameView, frame: Seq<char>) -> RelayEventView {
    match parsed {
        ParsedFrameView::Note(tag, text, message) => if tag == "EVENT"@ {
            RelayEventView::Event(text, message)
        } else {
            RelayEventView::NoticeOrOther(frame)
        },
        ParsedFrameView::Short(tag, text) => if tag == "EOSE"@ {
            RelayEventView::EndOfStoredEvents(text)
        } else {
            RelayEventView::NoticeOrOther(frame)
        },
        ParsedFrameView::Receipt(_, _, _) => RelayEventView::NoticeOrOther(frame),
    }
}

/// What a frame means to the pool: an event, or the reason why the frame is
/// malformed.
pub open spec fn frame_meaning(frame: Seq<char>) -> Result<RelayEventView, Seq<char>> {
    match frame_reading(frame) {
        Ok(parsed) => Ok(event_of(parsed, frame)),
        Err(reason) => Err(reason),
    }
}

/// The value of what a frame means: an event, or a reason.
pub open spec fn meaning_view(meaning: Result<RelayEvent, String>) -> Result<
    RelayEventView,
    Seq<char>,
> {
    match meaning {
        Ok(event) => Ok(event@),
        Err(reason) => Err(reason@),
    }
}

/// Makes an event of a frame that was read. `frame` is the frame's text.
pub fn classify(parsed: ParsedFrame, frame: &String) -> (event: RelayEvent)
    ensures
        event@ == event_of(parsed@, frame@),
{
    match parsed {
        ParsedFrame::Note(tag, text, message) => {
            if tag == String::from_str("EVENT") {
                RelayEvent::Event(text, message)
            } else {
                RelayEvent::NoticeOrOther(frame.clone())
            }
        },
        ParsedFrame::Short(tag, text) => {
            if tag == String::from_str("EOSE") {
                RelayEvent::EndOfStoredEvents(text)
            } else {
                RelayEvent::NoticeOrOther(frame.clone())
            }
        },
        ParsedFrame::Receipt(_, _, _) => RelayEvent::NoticeOrOther(frame.clone()),
    }
}

/// Reads a frame and says what it means to the pool: an event, or the reason
/// why the frame is malformed.
pub fn interpret(frame: &String) -> (meaning: Result<RelayEvent, String>)
    ensures
        meaning_view(meaning) == frame_meaning(frame@),
{
    match read_frame(frame) {
        Ok(parsed) => Ok(classify(parsed, frame)),
        Err(reason) => Err(reason),
    }
}

} // verus!
