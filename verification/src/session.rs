//! The recording session: the event buffer, its timing state, and the
//! idle/recording state machine with its flush.
//!
//! A session is Idle while its buffer is empty and Recording otherwise. The
//! first event starts a recording; a flush that succeeded ends it. Writing
//! the flushed file is the caller's part: [`RecordingSession::begin_flush`]
//! says what to write and where, [`RecordingSession::finish_flush`] takes the
//! outcome.

use vstd::prelude::*;
use crate::archive::{
    archive_file_name,
    decimal,
    file_name,
    signed_decimal,
    target_directory,
    DateDirectory,
    LocalDateTime,
};
use crate::event::{
    is_housekeeping,
    translate_message,
    translated,
    Payload,
    SemanticEvent,
    TrackEntry,
    DELTA_LIMIT,
};
use crate::smf::{encode_recording, recording_bytes};
use crate::timing::{
    ceil_seconds,
    delta_since,
    delta_ticks,
    duration_seconds,
    elapsed_ticks,
    DEFAULT_USEC_PER_TICK,
};

verus! {

/// The state of a session as contracts speak of it.
pub struct SessionView {
    /// Arrival of the first buffered event.
    pub first_event_time: Option<u64>,
    /// Arrival of the last buffered event.
    pub last_event_time: Option<u64>,
    /// Length of a tick in microseconds.
    pub tick_duration_usec: u32,
    /// The buffered entries, oldest first.
    pub buffer: Seq<TrackEntry>,
}

impl SessionView {
    /// The state of a session that holds nothing.
    pub open spec fn idle() -> SessionView {
        SessionView {
            first_event_time: None,
            last_event_time: None,
            tick_duration_usec: DEFAULT_USEC_PER_TICK,
            buffer: Seq::empty(),
        }
    }

    pub open spec fn is_idle(self) -> bool {
        self.buffer.len() == 0
    }

    /// What holds of every session: the buffer is empty exactly while no
    /// event time is set; the last event is not before the first; every entry
    /// is a well-formed event entry; the first entry has a delta of zero.
    pub open spec fn inv(self) -> bool {
        &&& self.tick_duration_usec == DEFAULT_USEC_PER_TICK
        &&& self.buffer.len() == 0 <==> self.first_event_time is None
        &&& self.first_event_time is None <==> self.last_event_time is None
        &&& match (self.first_event_time, self.last_event_time) {
            (Some(first), Some(last)) => first <= last,
            _ => true,
        }
        &&& forall|i: int|
            0 <= i < self.buffer.len() ==> (#[trigger] self.buffer[i]).wf()
                && self.buffer[i].payload is Event
        &&& self.buffer.len() > 0 ==> self.buffer[0].delta_ticks == 0
    }

    /// The time an event arriving at `arrival` is stamped with. On a
    /// monotonic clock that is `arrival`; a reading earlier than the last
    /// event counts as simultaneous with it.
    pub open spec fn stamp(self, arrival: u64) -> u64 {
        match self.last_event_time {
            Some(last) if arrival < last => last,
            _ => arrival,
        }
    }

    /// The entry an event arriving at `arrival` is buffered as.
    pub open spec fn entry_for(self, event: SemanticEvent, arrival: u64) -> TrackEntry {
        TrackEntry {
            delta_ticks: delta_since(
                self.last_event_time,
                self.stamp(arrival),
                self.tick_duration_usec,
            ) as u32,
            payload: Payload::Event(event),
        }
    }

    /// The state after an event that arrived at `arrival` was added.
    pub open spec fn after_event(self, event: SemanticEvent, arrival: u64) -> SessionView {
        SessionView {
            first_event_time: if self.first_event_time is None {
                Some(self.stamp(arrival))
            } else {
                self.first_event_time
            },
            last_event_time: Some(self.stamp(arrival)),
            tick_duration_usec: self.tick_duration_usec,
            buffer: self.buffer.push(self.entry_for(event, arrival)),
        }
    }

    /// The state after the events were added in order, each with its arrival.
    pub open spec fn after_events(self, events: Seq<(SemanticEvent, u64)>) -> SessionView
        decreases events.len(),
    {
        if events.len() == 0 {
            self
        } else {
            self.after_events(events.drop_last()).after_event(events.last().0, events.last().1)
        }
    }

    /// The state after a raw live message that arrived at `arrival` was
    /// received.
    pub open spec fn after_message(self, raw: Seq<u8>, arrival: u64) -> SessionView {
        match translated(raw) {
            Some(event) => self.after_event(event, arrival),
            None => self,
        }
    }

    /// Length of the recording in whole seconds, rounded up.
    pub open spec fn recording_seconds(self) -> nat {
        match (self.first_event_time, self.last_event_time) {
            (Some(first), Some(last)) => ceil_seconds(first, last),
            _ => 0,
        }
    }
}

/// What a flush has to write, and where below the archive's base directory.
#[derive(Debug)]
pub struct ArchiveFile {
    pub directory: DateDirectory,
    pub file_name: String,
    pub bytes: Vec<u8>,
}

/// Why a flush could not be prepared.
#[derive(Clone, Copy, Debug, PartialEq, Eq, Structural)]
pub enum FlushError {
    /// The buffered entries could not be encoded as a MIDI file.
    Encoding,
}

/// Whether `file` is the file a session in state `view` flushes at `moment`:
/// the single-track encoding of the buffer closed by an end-of-track marker,
/// named by the flush time, the number of entries (the marker counted) and
/// the length of the recording, in the directory of the flush date.
pub open spec fn is_flush_of(file: ArchiveFile, view: SessionView, moment: LocalDateTime) -> bool {
    &&& recording_bytes(view.buffer) == Some(file.bytes@)
    &&& file.file_name@ == archive_file_name(
        moment,
        view.buffer.len() + 1,
        view.recording_seconds(),
    )
    &&& file.directory.year@ == signed_decimal(moment.year as int)
    &&& file.directory.month@ == decimal(moment.month as nat)
    &&& file.directory.day@ == decimal(moment.day as nat)
}

/// The event buffer of one recording after another, with its timing state.
pub struct RecordingSession {
    first_event_time: Option<u64>,
    last_event_time: Option<u64>,
    usec_per_tick: u32,
    events: Vec<TrackEntry>,
}

impl View for RecordingSession {
    type V = SessionView;

    closed spec fn view(&self) -> SessionView {
        SessionView {
            first_event_time: self.first_event_time,
            last_event_time: self.last_event_time,
            tick_duration_usec: self.usec_per_tick,
            buffer: self.events@,
        }
    }
}

impl RecordingSession {
    /// The session's invariant holds.
    pub open spec fn wf(&self) -> bool {
        self@.inv()
    }

    /// Makes an idle session.
    pub fn new() -> (session: RecordingSession)
        ensures
            session.wf(),
            session@ == SessionView::idle(),
    {
        RecordingSession {
            first_event_time: None,
            last_event_time: None,
            usec_per_tick: DEFAULT_USEC_PER_TICK,
            events: Vec::new(),
        }
    }

    /// Buffers an event that arrived at `arrival`, a reading of a monotonic
    /// clock in nanoseconds.
    ///
    /// The entry's delta is the whole ticks since the previous entry, zero
    /// for the first entry of a recording.
    pub fn add_event(&mut self, event: SemanticEvent, arrival: u64)
        requires
            old(self).wf(),
            event.wf(),
        ensures
            final(self).wf(),
            final(self)@ == old(self)@.after_event(event, arrival),
    {
        let now = match self.last_event_time {
            Some(last) => if arrival < last {
                last
            } else {
                arrival
            },
            None => arrival,
        };
        if self.first_event_time.is_none() {
            self.first_event_time = Some(now);
        }
        let delta = delta_ticks(self.last_event_time, now, self.usec_per_tick);
        self.last_event_time = Some(now);
        self.events.push(TrackEntry { delta_ticks: delta, payload: Payload::Event(event) });
    }

    /// Receives a raw live message that arrived at `arrival`: translates it
    /// and buffers the event, if it yields one. Returns whether it did.
    ///
    /// A Timing Clock or Active Sensing message changes nothing.
    pub fn receive(&mut self, raw: &[u8], arrival: u64) -> (stored: bool)
        requires
            old(self).wf(),
        ensures
            final(self).wf(),
            final(self)@ == old(self)@.after_message(raw@, arrival),
            stored == translated(raw@) is Some,
            is_housekeeping(raw@) ==> !stored && final(self)@ == old(self)@,
    {
        match translate_message(raw) {
            Some(event) => {
                self.add_event(event, arrival);
                true
            },
            None => false,
        }
    }

    /// Empties the buffer and unsets both event times.
    pub fn reset(&mut self)
        ensures
            final(self).wf(),
            final(self)@ == SessionView::idle(),
    {
        self.first_event_time = None;
        self.last_event_time = None;
        self.usec_per_tick = DEFAULT_USEC_PER_TICK;
        self.events.clear();
    }

    /// Prepares the flush of the session at the local time `moment`.
    ///
    /// An idle session has nothing to flush: `Ok(None)`. A recording yields
    /// the file to create, or `FlushError::Encoding` where its entries cannot
    /// be encoded. The session itself is left as it is, whatever the result.
    pub fn begin_flush(&self, moment: &LocalDateTime) -> (r: Result<Option<ArchiveFile>, FlushError>)
        requires
            self.wf(),
            moment.wf(),
        ensures
            match r {
                Ok(None) => self@.is_idle(),
                Ok(Some(file)) => !self@.is_idle() && is_flush_of(file, self@, *moment),
                Err(FlushError::Encoding) => !self@.is_idle() && recording_bytes(self@.buffer)
                    is None,
            },
    {
        let (first, last) = match (self.first_event_time, self.last_event_time) {
            (Some(first), Some(last)) => (first, last),
            _ => { return Ok(None); },
        };
        let entries: u128 = self.events.len() as u128 + 1;
        let seconds = duration_seconds(first, last);
        match encode_recording(&self.events) {
            Some(bytes) => Ok(
                Some(
                    ArchiveFile {
                        directory: target_directory(moment),
                        file_name: file_name(moment, entries, seconds),
                        bytes,
                    },
                ),
            ),
            None => Err(FlushError::Encoding),
        }
    }

    /// Takes the outcome of writing the flushed file and hands it back
    /// unchanged. After a success the session is idle again, as a new one is;
    /// after a failure it is untouched, so that the flush can be tried again.
    pub fn finish_flush<E>(&mut self, outcome: Result<(), E>) -> (r: Result<(), E>)
        requires
            old(self).wf(),
        ensures
            final(self).wf(),
            r == outcome,
            outcome is Ok ==> final(self)@ == SessionView::idle(),
            outcome is Err ==> final(self)@ == old(self)@,
    {
        if outcome.is_ok() {
            self.reset();
        }
        outcome
    }

    /// Arrival of the first buffered event.
    pub fn first_event_time(&self) -> (r: Option<u64>)
        ensures
            r == self@.first_event_time,
    {
        self.first_event_time
    }

    /// Arrival of the last buffered event.
    pub fn last_event_time(&self) -> (r: Option<u64>)
        ensures
            r == self@.last_event_time,
    {
        self.last_event_time
    }

    /// Length of a tick in microseconds.
    pub fn tick_duration_usec(&self) -> (r: u32)
        ensures
            r == self@.tick_duration_usec,
    {
        self.usec_per_tick
    }

    /// The buffered entries, oldest first.
    pub fn entries(&self) -> (r: &Vec<TrackEntry>)
        ensures
            r@ == self@.buffer,
    {
        &self.events
    }

    /// Number of buffered entries.
    pub fn len(&self) -> (r: usize)
        ensures
            r == self@.buffer.len(),
    {
        self.events.len()
    }

    /// Whether nothing is buffered.
    pub fn is_idle(&self) -> (r: bool)
        ensures
            r == self@.is_idle(),
    {
        self.events.len() == 0
    }
}

/// Adding an event keeps the invariant.
pub proof fn lemma_after_event_inv(s: SessionView, event: SemanticEvent, arrival: u64)
    requires
        s.inv(),
        event.wf(),
    ensures
        s.after_event(event, arrival).inv(),
        !s.after_event(event, arrival).is_idle(),
{
}

/// What adding a sequence of events does to the buffer: every entry that was
/// there stays in place, and one entry per event follows, in order, carrying
/// that event. The invariant is kept.
pub proof fn lemma_after_events(s: SessionView, events: Seq<(SemanticEvent, u64)>)
    requires
        s.inv(),
        forall|i: int| 0 <= i < events.len() ==> (#[trigger] events[i]).0.wf(),
    ensures
        s.after_events(events).inv(),
        s.after_events(events).buffer.len() == s.buffer.len() + events.len(),
        forall|i: int|
            0 <= i < s.buffer.len() ==> #[trigger] s.after_events(events).buffer[i] == s.buffer[i],
        forall|i: int|
            0 <= i < events.len() ==> (#[trigger] s.after_events(events).buffer[s.buffer.len()
                + i]).payload == Payload::Event(events[i].0),
    decreases events.len(),
{
    if events.len() > 0 {
        let front = events.drop_last();
        lemma_after_events(s, front);
        let mid = s.after_events(front);
        lemma_after_event_inv(mid, events.last().0, events.last().1);
    }
}

/// N events fed to an idle session leave a buffer of N entries, which carry
/// the events in order; the first entry has a delta of zero.
pub proof fn lemma_feed_idle(events: Seq<(SemanticEvent, u64)>)
    requires
        forall|i: int| 0 <= i < events.len() ==> (#[trigger] events[i]).0.wf(),
    ensures
        SessionView::idle().after_events(events).buffer.len() == events.len(),
        events.len() > 0 ==> SessionView::idle().after_events(events).buffer[0].delta_ticks == 0,
        forall|i: int|
            0 <= i < events.len() ==> (#[trigger] SessionView::idle().after_events(
                events,
            ).buffer[i]).payload == Payload::Event(events[i].0),
{
    let s = SessionView::idle();
    lemma_after_events(s, events);
    assert forall|i: int| 0 <= i < events.len() implies (#[trigger] s.after_events(
        events,
    ).buffer[i]).payload == Payload::Event(events[i].0) by {
        assert(s.after_events(events).buffer[s.buffer.len() + i].payload == Payload::Event(
            events[i].0,
        ));
    }
}

/// Whether the arrival times never go back.
pub open spec fn non_decreasing(events: Seq<(SemanticEvent, u64)>) -> bool {
    forall|i: int, j: int| 0 <= i <= j < events.len() ==> events[i].1 <= events[j].1
}

/// For arrival times that never go back, each entry after the first of a
/// recording has as its delta the whole ticks between its arrival and the one
/// before: the elapsed microseconds divided by 500, rounded down. A track
/// entry keeps the low 28 bits of that number, which is all of it while the
/// gap is shorter than 2^28 ticks.
pub proof fn lemma_delta_ticks(events: Seq<(SemanticEvent, u64)>, i: int)
    requires
        forall|k: int| 0 <= k < events.len() ==> (#[trigger] events[k]).0.wf(),
        non_decreasing(events),
        1 <= i < events.len(),
    ensures
        SessionView::idle().after_events(events).buffer[i].delta_ticks == elapsed_ticks(
            events[i - 1].1,
            events[i].1,
            DEFAULT_USEC_PER_TICK,
        ) % (DELTA_LIMIT as nat),
        elapsed_ticks(events[i - 1].1, events[i].1, DEFAULT_USEC_PER_TICK) < DELTA_LIMIT
            ==> SessionView::idle().after_events(events).buffer[i].delta_ticks == (events[i].1
            - events[i - 1].1) / 1000 / 500,
    decreases events.len(),
{
    let s = SessionView::idle();
    let front = events.drop_last();
    lemma_after_events(s, front);
    lemma_last_event_time(front);
    if i < front.len() {
        lemma_delta_ticks(front, i);
    }
}

/// After events with arrival times that never go back were fed to an idle
/// session, its last event time is the last arrival and its first event time
/// the first.
pub proof fn lemma_last_event_time(events: Seq<(SemanticEvent, u64)>)
    requires
        non_decreasing(events),
        events.len() > 0,
    ensures
        SessionView::idle().after_events(events).last_event_time == Some(events.last().1),
        SessionView::idle().after_events(events).first_event_time == Some(events[0].1),
        SessionView::idle().after_events(events).tick_duration_usec == DEFAULT_USEC_PER_TICK,
    decreases events.len(),
{
    let front = events.drop_last();
    if front.len() > 0 {
        lemma_last_event_time(front);
    } else {
        assert(SessionView::idle().after_events(front) == SessionView::idle());
    }
}

} // verus!
