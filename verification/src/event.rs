//! Semantic events, track entries, and the translation of raw live MIDI
//! messages into storable events.

use vstd::prelude::*;
use midly::live::LiveEvent;
use midly::live::LiveEvent::{Midi, Common, Realtime};
use midly::MidiMessage::{NoteOff, NoteOn, Aftertouch, Controller, ProgramChange, ChannelAftertouch, PitchBend};

verus! {

/// Status byte of the Timing Clock message.
pub const TIMING_CLOCK: u8 = 0xF8;

/// Status byte of the Active Sensing message.
pub const ACTIVE_SENSING: u8 = 0xFE;

/// Largest delta time a track entry can carry, plus one (2^28).
pub const DELTA_LIMIT: u32 = 0x1000_0000;

/// A channel voice message with its data.
///
/// Data values are 7-bit, the pitch bend value is 14-bit.
#[derive(Clone, Copy, Debug, PartialEq, Eq, Structural)]
pub enum ChannelMessage {
    /// Key and release velocity.
    NoteOff(u8, u8),
    /// Key and velocity.
    NoteOn(u8, u8),
    /// Key and pressure.
    Aftertouch(u8, u8),
    /// Controller number and value.
    Controller(u8, u8),
    /// Program number.
    ProgramChange(u8),
    /// Pressure for the whole channel.
    ChannelAftertouch(u8),
    /// Raw bend value, `0x2000` being the centre.
    PitchBend(u16),
}

impl ChannelMessage {
    /// Every data value fits the width MIDI gives it.
    pub open spec fn in_range(self) -> bool {
        match self {
            ChannelMessage::NoteOff(key, vel) => key < 128 && vel < 128,
            ChannelMessage::NoteOn(key, vel) => key < 128 && vel < 128,
            ChannelMessage::Aftertouch(key, vel) => key < 128 && vel < 128,
            ChannelMessage::Controller(controller, value) => controller < 128 && value < 128,
            ChannelMessage::ProgramChange(program) => program < 128,
            ChannelMessage::ChannelAftertouch(vel) => vel < 128,
            ChannelMessage::PitchBend(bend) => bend < 0x4000,
        }
    }

    pub fn is_in_range(&self) -> (r: bool)
        ensures
            r == self.in_range(),
    {
        match *self {
            ChannelMessage::NoteOff(key, vel) => key < 128 && vel < 128,
            ChannelMessage::NoteOn(key, vel) => key < 128 && vel < 128,
            ChannelMessage::Aftertouch(key, vel) => key < 128 && vel < 128,
            ChannelMessage::Controller(controller, value) => controller < 128 && value < 128,
            ChannelMessage::ProgramChange(program) => program < 128,
            ChannelMessage::ChannelAftertouch(vel) => vel < 128,
            ChannelMessage::PitchBend(bend) => bend < 0x4000,
        }
    }
}

/// A decoded channel voice message together with its channel: the only kind
/// of message a recording stores.
#[derive(Clone, Copy, Debug, PartialEq, Eq, Structural)]
pub struct SemanticEvent {
    pub channel: u8,
    pub message: ChannelMessage,
}

impl SemanticEvent {
    /// The channel is one of the sixteen and the message data is in range.
    pub open spec fn wf(self) -> bool {
        self.channel < 16 && self.message.in_range()
    }

    /// Builds an event, refusing values no MIDI message can carry.
    pub fn new(channel: u8, message: ChannelMessage) -> (r: Option<SemanticEvent>)
        ensures
            r == (if channel < 16 && message.in_range() {
                Some(SemanticEvent { channel, message })
            } else {
                None
            }),
    {
        if channel < 16 && message.is_in_range() {
            Some(SemanticEvent { channel, message })
        } else {
            None
        }
    }
}

/// What a track entry carries.
#[derive(Clone, Copy, Debug, PartialEq, Eq, Structural)]
pub enum Payload {
    Event(SemanticEvent),
    EndOfTrack,
}

/// One entry of a track: the ticks elapsed since the previous entry, and the
/// payload.
#[derive(Clone, Copy, Debug, PartialEq, Eq, Structural)]
pub struct TrackEntry {
    pub delta_ticks: u32,
    pub payload: Payload,
}

impl TrackEntry {
    /// The delta fits 28 bits and a carried event is well formed.
    pub open spec fn wf(self) -> bool {
        &&& self.delta_ticks < DELTA_LIMIT
        &&& self.payload matches Payload::Event(e) ==> e.wf()
    }

    /// The marker that closes a track.
    pub open spec fn end_of_track() -> TrackEntry {
        TrackEntry { delta_ticks: 0, payload: Payload::EndOfTrack }
    }
}

/// A complete live message, by category.
#[derive(Clone, Copy, Debug, PartialEq, Eq, Structural)]
pub enum LiveMessage {
    /// A channel voice message: channel and decoded message.
    Voice(u8, ChannelMessage),
    /// A System Common message, System Exclusive included.
    SystemCommon,
    /// A one-byte System Realtime message.
    SystemRealtime,
}

/// `midly::Error`, the error of midly's parsers. It is handed through
/// unread: nothing is claimed of what it holds.
#[verifier::external_type_specification]
#[verifier::external_body]
pub struct ExMidlyError(midly::Error);

/// What `midly::live::LiveEvent::parse` makes of a raw message: `None` where
/// it reports an error, else the category of the event and, for a channel
/// voice message, its channel and data.
pub uninterp spec fn live_parse(raw: Seq<u8>) -> Option<LiveMessage>;

/// Calls `midly::live::LiveEvent::parse` on the raw bytes and copies the event
/// it returns, variant by variant, into a [`LiveMessage`].
///
/// Trusted: the outcome is a function of the bytes alone, named
/// [`live_parse`]; and the channel and data of a channel voice message are in
/// range, since midly holds them in its 4-, 7- and 14-bit integer types.
#[verifier::external_body]
fn parse_live(raw: &[u8]) -> (r: Result<LiveMessage, midly::Error>)
    ensures
        r.ok() == live_parse(raw@),
        r matches Ok(LiveMessage::Voice(channel, message)) ==> channel < 16 && message.in_range(),
{
    Ok(match LiveEvent::parse(raw)? {
        Midi { channel, message } => LiveMessage::Voice(channel.into(), match message {
            NoteOff { key, vel } => ChannelMessage::NoteOff(key.into(), vel.into()),
            NoteOn { key, vel } => ChannelMessage::NoteOn(key.into(), vel.into()),
            Aftertouch { key, vel } => ChannelMessage::Aftertouch(key.into(), vel.into()),
            Controller { controller, value } => ChannelMessage::Controller(controller.into(), value.into()),
            ProgramChange { program } => ChannelMessage::ProgramChange(program.into()),
            ChannelAftertouch { vel } => ChannelMessage::ChannelAftertouch(vel.into()),
            PitchBend { bend } => ChannelMessage::PitchBend(bend.0.into()),
        }),
        Common(_) => LiveMessage::SystemCommon,
        Realtime(_) => LiveMessage::SystemRealtime,
    })
}

/// The event a parsed live message is stored as, if any: channel voice
/// messages are stored one for one, System Common and System Realtime
/// messages and parse failures are not stored.
pub open spec fn storable(parsed: Option<LiveMessage>) -> Option<SemanticEvent> {
    match parsed {
        Some(LiveMessage::Voice(channel, message)) => if channel < 16 && message.in_range() {
            Some(SemanticEvent { channel, message })
        } else {
            None
        },
        _ => None,
    }
}

/// Whether a raw message is dropped on its leading byte alone.
pub open spec fn is_housekeeping(raw: Seq<u8>) -> bool {
    raw.len() > 0 && (raw[0] == ACTIVE_SENSING || raw[0] == TIMING_CLOCK)
}

/// The event a raw live message is stored as, if any.
pub open spec fn translated(raw: Seq<u8>) -> Option<SemanticEvent> {
    if is_housekeeping(raw) {
        None
    } else {
        storable(live_parse(raw))
    }
}

/// Maps a parsed live message to the event that gets stored, if any.
pub fn live_event_to_track_event_kind(event: LiveMessage) -> (r: Option<SemanticEvent>)
    ensures
        r == storable(Some(event)),
        r matches Some(e) ==> e.wf(),
{
    match event {
        LiveMessage::Voice(channel, message) => SemanticEvent::new(channel, message),
        LiveMessage::SystemCommon => None,
        LiveMessage::SystemRealtime => None,
    }
}

/// Parses a complete raw live message.
pub fn parse_message(raw: &[u8]) -> (r: Option<LiveMessage>)
    ensures
        r == live_parse(raw@),
        r matches Some(LiveMessage::Voice(channel, message)) ==> channel < 16
            && message.in_range(),
{
    match parse_live(raw) {
        Ok(message) => Some(message),
        Err(_) => None,
    }
}

/// Translates a raw live message into the event to store.
///
/// Active Sensing and Timing Clock are dropped on their status byte, before
/// any parsing; a message that does not parse, and one that is no channel
/// voice message, yields nothing.
pub fn translate_message(raw: &[u8]) -> (r: Option<SemanticEvent>)
    ensures
        r == translated(raw@),
        is_housekeeping(raw@) ==> r is None,
        r matches Some(e) ==> e.wf(),
{
    if raw.len() > 0 && (raw[0] == ACTIVE_SENSING || raw[0] == TIMING_CLOCK) {
        return None;
    }
    match parse_message(raw) {
        Some(event) => live_event_to_track_event_kind(event),
        None => None,
    }
}

} // verus!
