use midi_recorder::event::{
    live_event_to_track_event_kind, parse_message, translate_message, ChannelMessage, LiveMessage,
    SemanticEvent,
};

fn event(channel: u8, message: ChannelMessage) -> SemanticEvent {
    SemanticEvent::new(channel, message).unwrap()
}

#[test]
fn note_on_is_translated() {
    assert_eq!(
        translate_message(&[0x90, 60, 100]),
        Some(event(0, ChannelMessage::NoteOn(60, 100)))
    );
}

#[test]
fn note_off_is_translated() {
    assert_eq!(
        translate_message(&[0x83, 60, 0]),
        Some(event(3, ChannelMessage::NoteOff(60, 0)))
    );
}

#[test]
fn every_channel_voice_kind_is_translated() {
    assert_eq!(
        translate_message(&[0xA1, 61, 17]),
        Some(event(1, ChannelMessage::Aftertouch(61, 17)))
    );
    assert_eq!(
        translate_message(&[0xB2, 7, 127]),
        Some(event(2, ChannelMessage::Controller(7, 127)))
    );
    assert_eq!(
        translate_message(&[0xC9, 42]),
        Some(event(9, ChannelMessage::ProgramChange(42)))
    );
    assert_eq!(
        translate_message(&[0xDF, 99]),
        Some(event(15, ChannelMessage::ChannelAftertouch(99)))
    );
    assert_eq!(
        translate_message(&[0xE0, 0x00, 0x40]),
        Some(event(0, ChannelMessage::PitchBend(0x2000)))
    );
    assert_eq!(
        translate_message(&[0xE4, 0x7F, 0x7F]),
        Some(event(4, ChannelMessage::PitchBend(0x3FFF)))
    );
}

#[test]
fn translated_events_are_in_range() {
    for status in 0x80u8..=0xEF {
        if let Some(e) = translate_message(&[status, 0x7F, 0x7F]) {
            assert_eq!(SemanticEvent::new(e.channel, e.message), Some(e));
            assert_eq!(e.channel, status & 0x0F);
        } else {
            panic!("status {status:#x} was not translated");
        }
    }
}

#[test]
fn timing_clock_is_dropped() {
    assert_eq!(translate_message(&[0xF8]), None);
}

#[test]
fn active_sensing_is_dropped() {
    assert_eq!(translate_message(&[0xFE]), None);
}

#[test]
fn housekeeping_is_dropped_whatever_follows() {
    assert_eq!(translate_message(&[0xF8, 0x90, 60, 100]), None);
    assert_eq!(translate_message(&[0xFE, 1, 2, 3]), None);
}

#[test]
fn system_realtime_is_not_stored() {
    assert_eq!(parse_message(&[0xFA]), Some(LiveMessage::SystemRealtime));
    assert_eq!(parse_message(&[0xFF]), Some(LiveMessage::SystemRealtime));
    assert_eq!(translate_message(&[0xFA]), None);
    assert_eq!(translate_message(&[0xFB]), None);
    assert_eq!(translate_message(&[0xFC]), None);
    assert_eq!(translate_message(&[0xFF]), None);
}

#[test]
fn system_common_is_not_stored() {
    assert_eq!(parse_message(&[0xF0, 1, 2, 3, 0xF7]), Some(LiveMessage::SystemCommon));
    assert_eq!(parse_message(&[0xF2, 0x10, 0x20]), Some(LiveMessage::SystemCommon));
    assert_eq!(translate_message(&[0xF0, 1, 2, 3, 0xF7]), None);
    assert_eq!(translate_message(&[0xF1, 0x23]), None);
    assert_eq!(translate_message(&[0xF2, 0x10, 0x20]), None);
    assert_eq!(translate_message(&[0xF3, 5]), None);
    assert_eq!(translate_message(&[0xF6]), None);
}

#[test]
fn malformed_messages_are_discarded() {
    assert_eq!(parse_message(&[]), None);
    assert_eq!(translate_message(&[]), None);
    // No status byte.
    assert_eq!(translate_message(&[60, 100]), None);
    // Truncated.
    assert_eq!(translate_message(&[0x90]), None);
    assert_eq!(translate_message(&[0x90, 60]), None);
    assert_eq!(translate_message(&[0xC0]), None);
    // A data byte with the top bit set ends the data.
    assert_eq!(translate_message(&[0x90, 60, 0x80]), None);
    assert_eq!(translate_message(&[0x90, 0x80, 60]), None);
    // A stray end of System Exclusive.
    assert_eq!(translate_message(&[0xF7]), None);
}

#[test]
fn bytes_after_the_message_are_ignored() {
    assert_eq!(
        translate_message(&[0x90, 60, 100, 61, 101]),
        Some(event(0, ChannelMessage::NoteOn(60, 100)))
    );
}

#[test]
fn parsed_voice_message_keeps_channel_and_data() {
    assert_eq!(
        parse_message(&[0x95, 1, 2]),
        Some(LiveMessage::Voice(5, ChannelMessage::NoteOn(1, 2)))
    );
}

#[test]
fn only_voice_messages_are_storable() {
    assert_eq!(
        live_event_to_track_event_kind(LiveMessage::Voice(2, ChannelMessage::NoteOn(1, 2))),
        Some(event(2, ChannelMessage::NoteOn(1, 2)))
    );
    assert_eq!(live_event_to_track_event_kind(LiveMessage::SystemCommon), None);
    assert_eq!(live_event_to_track_event_kind(LiveMessage::SystemRealtime), None);
}

#[test]
fn out_of_range_values_make_no_event() {
    assert_eq!(SemanticEvent::new(16, ChannelMessage::NoteOn(60, 100)), None);
    assert_eq!(SemanticEvent::new(0, ChannelMessage::NoteOn(128, 100)), None);
    assert_eq!(SemanticEvent::new(0, ChannelMessage::NoteOn(60, 128)), None);
    assert_eq!(SemanticEvent::new(0, ChannelMessage::NoteOff(200, 0)), None);
    assert_eq!(SemanticEvent::new(0, ChannelMessage::Aftertouch(0, 255)), None);
    assert_eq!(SemanticEvent::new(0, ChannelMessage::Controller(128, 0)), None);
    assert_eq!(SemanticEvent::new(0, ChannelMessage::ProgramChange(128)), None);
    assert_eq!(SemanticEvent::new(0, ChannelMessage::ChannelAftertouch(128)), None);
    assert_eq!(SemanticEvent::new(0, ChannelMessage::PitchBend(0x4000)), None);
    assert_eq!(
        live_event_to_track_event_kind(LiveMessage::Voice(16, ChannelMessage::NoteOn(1, 2))),
        None
    );
    assert!(ChannelMessage::PitchBend(0x3FFF).is_in_range());
    assert!(!ChannelMessage::PitchBend(0x4000).is_in_range());
}
