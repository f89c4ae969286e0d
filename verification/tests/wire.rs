use minions::event::{Message, RelayEvent};
use minions::wire::{classify, interpret, ParsedFrame};

const NOTE: &str = "{\"id\":\"4376c65d2f232afbe9b882a35baa4f6fe8667c4e684749af565f981833ed6a65\",\"pubkey\":\"6e468422dfb74a5738702a8823b9b28168abab8655faacb6853cd0ee15deee93\",\"created_at\":1673347337,\"kind\":1,\"tags\":[[\"e\",\"3da979448d9ba263864c4d6f14984c423a3838364ec255f03c7904b1ae77f206\"]],\"content\":\"Walled gardens became prisons\",\"sig\":\"908a15e46fb4d8675bab026fc230a0e3542bfade63da02d542fb78b2a8513fcd0092619a2c8c1221e581946e0191f2af505dfdf8657a414dbca329186f009262\"}";

fn message(id: &str, content: &str) -> Message {
    Message { id: id.to_string(), content: content.to_string() }
}

#[test]
fn note_is_an_event_of_its_subscription() {
    let parsed = ParsedFrame::Note("EVENT".to_string(), "sub".to_string(), message("abc", "{}"));
    assert_eq!(
        classify(parsed, &"frame".to_string()),
        RelayEvent::Event("sub".to_string(), message("abc", "{}"))
    );
}

#[test]
fn note_under_another_tag_is_passed_on_as_it_came() {
    for tag in ["NOTICE", "OK", "EOSE", "event", ""] {
        let parsed = ParsedFrame::Note(tag.to_string(), "sub".to_string(), message("abc", "{}"));
        assert_eq!(
            classify(parsed, &"frame".to_string()),
            RelayEvent::NoticeOrOther("frame".to_string())
        );
    }
}

#[test]
fn interpret_passes_a_note_under_another_tag_on() {
    let frame = format!("[\"NOTICE\",\"sub\",{}]", NOTE);
    assert_eq!(interpret(&frame), Ok(RelayEvent::NoticeOrOther(frame.clone())));
}

#[test]
fn short_frame_tagged_eose_ends_the_stored_events() {
    let parsed = ParsedFrame::Short("EOSE".to_string(), "sub".to_string());
    assert_eq!(
        classify(parsed, &"frame".to_string()),
        RelayEvent::EndOfStoredEvents("sub".to_string())
    );
}

#[test]
fn other_short_frames_are_passed_on_as_they_came() {
    for tag in ["NOTICE", "CLOSED", "CLOSE", "REQ", "OK", "EVENT", "eose", ""] {
        let parsed = ParsedFrame::Short(tag.to_string(), "text".to_string());
        assert_eq!(
            classify(parsed, &"frame".to_string()),
            RelayEvent::NoticeOrOther("frame".to_string())
        );
    }
}

#[test]
fn receipt_is_passed_on_as_it_came() {
    let parsed = ParsedFrame::Receipt("abc".to_string(), false, "blocked".to_string());
    assert_eq!(
        classify(parsed, &"frame".to_string()),
        RelayEvent::NoticeOrOther("frame".to_string())
    );
}

#[test]
fn interpret_reads_a_note_frame() {
    let frame = format!("[\"EVENT\",\"sub\",{}]", NOTE);
    assert_eq!(
        interpret(&frame),
        Ok(RelayEvent::Event(
            "sub".to_string(),
            message("4376c65d2f232afbe9b882a35baa4f6fe8667c4e684749af565f981833ed6a65", NOTE)
        ))
    );
}

#[test]
fn interpret_reads_the_end_of_stored_events() {
    assert_eq!(
        interpret(&"[\"EOSE\",\"sub\"]".to_string()),
        Ok(RelayEvent::EndOfStoredEvents("sub".to_string()))
    );
}

#[test]
fn interpret_passes_a_notice_on() {
    let frame = "[\"NOTICE\",\"slow down\"]".to_string();
    assert_eq!(interpret(&frame), Ok(RelayEvent::NoticeOrOther(frame.clone())));
}

#[test]
fn interpret_passes_a_receipt_on() {
    let frame = "[\"OK\",\"4376c65d\",false,\"blocked: no\"]".to_string();
    assert_eq!(interpret(&frame), Ok(RelayEvent::NoticeOrOther(frame.clone())));
}

#[test]
fn interpret_rejects_what_is_not_a_frame() {
    for frame in ["", "not json", "{}", "[]", "[\"HELLO\",\"sub\"]", "[\"EVENT\",\"sub\",{\"id\":1}]"] {
        let meaning = interpret(&frame.to_string());
        assert!(matches!(&meaning, Err(reason) if !reason.is_empty()), "{:?}", meaning);
    }
}

#[test]
fn interpret_gives_the_same_meaning_each_time() {
    for frame in ["[\"EOSE\",\"sub\"]", "garbage", "[\"NOTICE\",\"x\"]"] {
        assert_eq!(interpret(&frame.to_string()), interpret(&frame.to_string()));
    }
}
