//! Assembly of a Standard MIDI File from track entries.
//!
//! The file is built in a `midly::Smf` and encoded by midly. What the `Smf`
//! holds is tracked through [`smf_header`] and [`smf_tracks`]; the bytes midly
//! encodes it to are [`smf_bytes`] of those.

use vstd::prelude::*;
use midly::{Format, Header, MetaMessage, MidiMessage, Smf, Timing, TrackEvent, TrackEventKind};
use crate::event::{ChannelMessage, Payload, SemanticEvent, TrackEntry, DELTA_LIMIT};
use crate::timing::DEFAULT_TICKS_PER_BEAT;

verus! {

/// How the tracks of a file relate.
#[derive(Clone, Copy, Debug, PartialEq, Eq, Structural)]
pub enum FileFormat {
    SingleTrack,
    Parallel,
    Sequential,
}

/// The header of a file with metrical timing.
#[derive(Clone, Copy, Debug, PartialEq, Eq, Structural)]
pub struct FileHeader {
    pub format: FileFormat,
    pub ticks_per_beat: u16,
}

/// `midly::Smf`, a MIDI file in memory: a header and a list of tracks. What
/// one holds is known only through [`smf_header`] and [`smf_tracks`].
#[verifier::external_type_specification]
#[verifier::external_body]
pub struct ExSmf<'a>(Smf<'a>);

/// The header a `midly::Smf` was made with.
pub uninterp spec fn smf_header(smf: Smf<'static>) -> FileHeader;

/// The tracks a `midly::Smf` holds, each as the sequence of its entries.
pub uninterp spec fn smf_tracks(smf: Smf<'static>) -> Seq<Seq<TrackEntry>>;

/// The bytes `midly::Smf::write` encodes a file to, or `None` where it
/// refuses to encode it.
pub uninterp spec fn smf_bytes(header: FileHeader, tracks: Seq<Seq<TrackEntry>>) -> Option<Seq<u8>>;

/// `tracks` with `entry` appended to its first track.
pub open spec fn with_entry(tracks: Seq<Seq<TrackEntry>>, entry: TrackEntry) -> Seq<Seq<TrackEntry>> {
    tracks.update(0, tracks[0].push(entry))
}

/// A channel voice entry.
pub open spec fn voice_entry(delta: u32, channel: u8, message: ChannelMessage) -> TrackEntry {
    TrackEntry { delta_ticks: delta, payload: Payload::Event(SemanticEvent { channel, message }) }
}

/// Makes a `midly::Smf` with `midly::Smf::new` from a header of the given
/// format and metrical timing, and gives it one empty track.
///
/// Trusted: the `Smf` has that header and one track without entries. The
/// ticks per beat must fit 15 bits, else midly drops the top bit.
#[verifier::external_body]
fn smf_new(format: FileFormat, ticks_per_beat: u16) -> (smf: Smf<'static>)
    requires
        ticks_per_beat < 0x8000,
    ensures
        smf_header(smf) == (FileHeader { format, ticks_per_beat }),
        smf_tracks(smf) == seq![Seq::<TrackEntry>::empty()],
{
    let format = match format {
        FileFormat::SingleTrack => Format::SingleTrack,
        FileFormat::Parallel => Format::Parallel,
        FileFormat::Sequential => Format::Sequential,
    };
    let mut smf = Smf::new(Header::new(format, Timing::Metrical(ticks_per_beat.into())));
    smf.tracks.push(Vec::new());
    smf
}

/// Appends a `midly::TrackEvent` holding a Note Off to the first track.
///
/// Trusted, as for each `push_` function below: the first track gains the
/// entry as its last, and nothing else changes. Values must fit the widths
/// midly keeps them in, else it drops their top bits.
#[verifier::external_body]
fn push_note_off(smf: &mut Smf<'static>, delta: u32, channel: u8, key: u8, vel: u8)
    requires
        smf_tracks(*old(smf)).len() > 0,
        voice_entry(delta, channel, ChannelMessage::NoteOff(key, vel)).wf(),
    ensures
        smf_header(*final(smf)) == smf_header(*old(smf)),
        smf_tracks(*final(smf)) == with_entry(
            smf_tracks(*old(smf)),
            voice_entry(delta, channel, ChannelMessage::NoteOff(key, vel)),
        ),
{
    let message = MidiMessage::NoteOff { key: key.into(), vel: vel.into() };
    let kind = TrackEventKind::Midi { channel: channel.into(), message };
    smf.tracks[0].push(TrackEvent { delta: delta.into(), kind });
}

/// Appends a `midly::TrackEvent` holding a Note On to the first track.
#[verifier::external_body]
fn push_note_on(smf: &mut Smf<'static>, delta: u32, channel: u8, key: u8, vel: u8)
    requires
        smf_tracks(*old(smf)).len() > 0,
        voice_entry(delta, channel, ChannelMessage::NoteOn(key, vel)).wf(),
    ensures
        smf_header(*final(smf)) == smf_header(*old(smf)),
        smf_tracks(*final(smf)) == with_entry(
            smf_tracks(*old(smf)),
            voice_entry(delta, channel, ChannelMessage::NoteOn(key, vel)),
        ),
{
    let message = MidiMessage::NoteOn { key: key.into(), vel: vel.into() };
    let kind = TrackEventKind::Midi { channel: channel.into(), message };
    smf.tracks[0].push(TrackEvent { delta: delta.into(), kind });
}

/// Appends a `midly::TrackEvent` holding a polyphonic Aftertouch to the
/// first track.
#[verifier::external_body]
fn push_aftertouch(smf: &mut Smf<'static>, delta: u32, channel: u8, key: u8, vel: u8)
    requires
        smf_tracks(*old(smf)).len() > 0,
        voice_entry(delta, channel, ChannelMessage::Aftertouch(key, vel)).wf(),
    ensures
        smf_header(*final(smf)) == smf_header(*old(smf)),
        smf_tracks(*final(smf)) == with_entry(
            smf_tracks(*old(smf)),
            voice_entry(delta, channel, ChannelMessage::Aftertouch(key, vel)),
        ),
{
    let message = MidiMessage::Aftertouch { key: key.into(), vel: vel.into() };
    let kind = TrackEventKind::Midi { channel: channel.into(), message };
    smf.tracks[0].push(TrackEvent { delta: delta.into(), kind });
}

/// Appends a `midly::TrackEvent` holding a Controller change to the first
/// track.
#[verifier::external_body]
fn push_controller(smf: &mut Smf<'static>, delta: u32, channel: u8, controller: u8, value: u8)
    requires
        smf_tracks(*old(smf)).len() > 0,
        voice_entry(delta, channel, ChannelMessage::Controller(controller, value)).wf(),
    ensures
        smf_header(*final(smf)) == smf_header(*old(smf)),
        smf_tracks(*final(smf)) == with_entry(
            smf_tracks(*old(smf)),
            voice_entry(delta, channel, ChannelMessage::Controller(controller, value)),
        ),
{
    let message = MidiMessage::Controller { controller: controller.into(), value: value.into() };
    let kind = TrackEventKind::Midi { channel: channel.into(), message };
    smf.tracks[0].push(TrackEvent { delta: delta.into(), kind });
}

/// Appends a `midly::TrackEvent` holding a Program Change to the first
/// track.
#[verifier::external_body]
fn push_program_change(smf: &mut Smf<'static>, delta: u32, channel: u8, program: u8)
    requires
        smf_tracks(*old(smf)).len() > 0,
        voice_entry(delta, channel, ChannelMessage::ProgramChange(program)).wf(),
    ensures
        smf_header(*final(smf)) == smf_header(*old(smf)),
        smf_tracks(*final(smf)) == with_entry(
            smf_tracks(*old(smf)),
            voice_entry(delta, channel, ChannelMessage::ProgramChange(program)),
        ),
{
    let message = MidiMessage::ProgramChange { program: program.into() };
    let kind = TrackEventKind::Midi { channel: channel.into(), message };
    smf.tracks[0].push(TrackEvent { delta: delta.into(), kind });
}

/// Appends a `midly::TrackEvent` holding a Channel Aftertouch to the first
/// track.
#[verifier::external_body]
fn push_channel_aftertouch(smf: &mut Smf<'static>, delta: u32, channel: u8, vel: u8)
    requires
        smf_tracks(*old(smf)).len() > 0,
        voice_entry(delta, channel, ChannelMessage::ChannelAftertouch(vel)).wf(),
    ensures
        smf_header(*final(smf)) == smf_header(*old(smf)),
        smf_tracks(*final(smf)) == with_entry(
            smf_tracks(*old(smf)),
            voice_entry(delta, channel, ChannelMessage::ChannelAftertouch(vel)),
        ),
{
    let message = MidiMessage::ChannelAftertouch { vel: vel.into() };
    let kind = TrackEventKind::Midi { channel: channel.into(), message };
    smf.tracks[0].push(TrackEvent { delta: delta.into(), kind });
}

/// Appends a `midly::TrackEvent` holding a Pitch Bend to the first track.
#[verifier::external_body]
fn push_pitch_bend(smf: &mut Smf<'static>, delta: u32, channel: u8, bend: u16)
    requires
        smf_tracks(*old(smf)).len() > 0,
        voice_entry(delta, channel, ChannelMessage::PitchBend(bend)).wf(),
    ensures
        smf_header(*final(smf)) == smf_header(*old(smf)),
        smf_tracks(*final(smf)) == with_entry(
            smf_tracks(*old(smf)),
            voice_entry(delta, channel, ChannelMessage::PitchBend(bend)),
        ),
{
    let message = MidiMessage::PitchBend { bend: midly::PitchBend(bend.into()) };
    let kind = TrackEventKind::Midi { channel: channel.into(), message };
    smf.tracks[0].push(TrackEvent { delta: delta.into(), kind });
}

/// Appends a `midly::TrackEvent` holding the End of Track meta message to
/// the first track.
#[verifier::external_body]
fn push_end_of_track(smf: &mut Smf<'static>, delta: u32)
    requires
        smf_tracks(*old(smf)).len() > 0,
        delta < DELTA_LIMIT,
    ensures
        smf_header(*final(smf)) == smf_header(*old(smf)),
        smf_tracks(*final(smf)) == with_entry(
            smf_tracks(*old(smf)),
            TrackEntry { delta_ticks: delta, payload: Payload::EndOfTrack },
        ),
{
    let kind = TrackEventKind::Meta(MetaMessage::EndOfTrack);
    smf.tracks[0].push(TrackEvent { delta: delta.into(), kind });
}

/// Encodes the file with `midly::Smf::write` into a fresh vector.
///
/// Trusted: the outcome is a function of the header and the tracks alone,
/// named [`smf_bytes`]; it is `None` where midly reports an error.
#[verifier::external_body]
fn smf_write(smf: &Smf<'static>) -> (r: Option<Vec<u8>>)
    ensures
        bytes_view(r) == smf_bytes(smf_header(*smf), smf_tracks(*smf)),
{
    let mut out = Vec::new();
    match smf.write(&mut out) {
        Ok(()) => Some(out),
        Err(_) => None,
    }
}

/// The bytes an optional vector holds.
pub open spec fn bytes_view(bytes: Option<Vec<u8>>) -> Option<Seq<u8>> {
    match bytes {
        Some(v) => Some(v@),
        None => None,
    }
}

/// Appends one entry to the first track of the file.
fn push_entry(smf: &mut Smf<'static>, entry: &TrackEntry)
    requires
        smf_tracks(*old(smf)).len() > 0,
        entry.wf(),
    ensures
        smf_header(*final(smf)) == smf_header(*old(smf)),
        smf_tracks(*final(smf)) == with_entry(smf_tracks(*old(smf)), *entry),
{
    let delta = entry.delta_ticks;
    match entry.payload {
        Payload::EndOfTrack => push_end_of_track(smf, delta),
        Payload::Event(event) => {
            let channel = event.channel;
            match event.message {
                ChannelMessage::NoteOff(key, vel) => push_note_off(smf, delta, channel, key, vel),
                ChannelMessage::NoteOn(key, vel) => push_note_on(smf, delta, channel, key, vel),
                ChannelMessage::Aftertouch(key, vel) => push_aftertouch(smf, delta, channel, key, vel),
                ChannelMessage::Controller(controller, value) => push_controller(
                    smf,
                    delta,
                    channel,
                    controller,
                    value,
                ),
                ChannelMessage::ProgramChange(program) => push_program_change(
                    smf,
                    delta,
                    channel,
                    program,
                ),
                ChannelMessage::ChannelAftertouch(vel) => push_channel_aftertouch(
                    smf,
                    delta,
                    channel,
                    vel,
                ),
                ChannelMessage::PitchBend(bend) => push_pitch_bend(smf, delta, channel, bend),
            }
        },
    }
}

/// The header of every recording: a single track, 1000 ticks per beat.
pub open spec fn recording_header() -> FileHeader {
    FileHeader { format: FileFormat::SingleTrack, ticks_per_beat: DEFAULT_TICKS_PER_BEAT }
}

/// The bytes of the file a recording is saved as: one track holding the
/// entries in order, closed by an End of Track marker with a delta of zero.
/// No tempo is written.
pub open spec fn recording_bytes(entries: Seq<TrackEntry>) -> Option<Seq<u8>> {
    smf_bytes(recording_header(), seq![entries.push(TrackEntry::end_of_track())])
}

/// Serialises the entries of a recording as a single-track file.
///
/// Returns `None` only where midly refuses to encode the track.
pub fn encode_recording(entries: &Vec<TrackEntry>) -> (r: Option<Vec<u8>>)
    requires
        forall|i: int| 0 <= i < entries.len() ==> (#[trigger] entries[i]).wf(),
    ensures
        bytes_view(r) == recording_bytes(entries@),
{
    let mut smf = smf_new(FileFormat::SingleTrack, DEFAULT_TICKS_PER_BEAT);
    assert(smf_tracks(smf) =~~= seq![entries@.take(0)]);
    let mut i: usize = 0;
    while i < entries.len()
        invariant
            i <= entries.len(),
            forall|j: int| 0 <= j < entries.len() ==> (#[trigger] entries[j]).wf(),
            smf_header(smf) == recording_header(),
            smf_tracks(smf) == seq![entries@.take(i as int)],
        decreases entries.len() - i,
    {
        push_entry(&mut smf, &entries[i]);
        assert(smf_tracks(smf) =~~= seq![entries@.take(i + 1)]);
        i = i + 1;
    }
    let end = TrackEntry { delta_ticks: 0, payload: Payload::EndOfTrack };
    push_entry(&mut smf, &end);
    assert(smf_tracks(smf) =~~= seq![entries@.push(TrackEntry::end_of_track())]);
    smf_write(&smf)
}

} // verus!
