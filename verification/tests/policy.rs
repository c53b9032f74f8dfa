use midi_recorder::event::{ChannelMessage, SemanticEvent};
use midi_recorder::session::RecordingSession;
use midi_recorder::supervisor::{
    flush_due, next_action, next_course, Action, Course, Trigger, INACTIVITY_LIMIT_NANOS,
};

const SECOND: u64 = 1_000_000_000;

fn recording_until(last: u64) -> RecordingSession {
    let mut session = RecordingSession::new();
    let event = SemanticEvent::new(0, ChannelMessage::NoteOn(60, 100)).unwrap();
    session.add_event(event, last);
    session
}

#[test]
fn limit_is_eight_seconds() {
    assert_eq!(INACTIVITY_LIMIT_NANOS, 8 * SECOND);
}

#[test]
fn an_idle_session_is_never_due() {
    let session = RecordingSession::new();
    assert!(!flush_due(&session, 0));
    assert!(!flush_due(&session, 100 * SECOND));
    assert!(!flush_due(&session, u64::MAX));
    assert_eq!(next_action(&session, Trigger::Poll { now: u64::MAX }), Action::Wait);
}

#[test]
fn flush_is_due_after_more_than_eight_seconds_of_silence() {
    let session = recording_until(3 * SECOND);
    assert!(!flush_due(&session, 3 * SECOND));
    assert!(!flush_due(&session, 10 * SECOND));
    assert!(!flush_due(&session, 11 * SECOND));
    assert!(flush_due(&session, 11 * SECOND + 1));
    assert!(flush_due(&session, 12 * SECOND));
}

#[test]
fn a_clock_reading_before_the_last_event_is_not_due() {
    let session = recording_until(30 * SECOND);
    assert!(!flush_due(&session, 0));
}

#[test]
fn poll_flushes_only_when_due() {
    let session = recording_until(0);
    assert_eq!(next_action(&session, Trigger::Poll { now: SECOND }), Action::Wait);
    assert_eq!(next_action(&session, Trigger::Poll { now: 8 * SECOND }), Action::Wait);
    assert_eq!(next_action(&session, Trigger::Poll { now: 9 * SECOND }), Action::Flush);
}

#[test]
fn shutdown_always_flushes_and_stops() {
    assert_eq!(next_action(&RecordingSession::new(), Trigger::Shutdown), Action::FlushAndStop);
    assert_eq!(next_action(&recording_until(5), Trigger::Shutdown), Action::FlushAndStop);
}

#[test]
fn new_events_put_the_flush_off() {
    let mut session = recording_until(0);
    let event = SemanticEvent::new(0, ChannelMessage::NoteOff(60, 0)).unwrap();
    session.add_event(event, 7 * SECOND);
    assert!(!flush_due(&session, 9 * SECOND));
    assert!(flush_due(&session, 15 * SECOND + 1));
}

#[test]
fn waiting_goes_on() {
    assert_eq!(next_course(Action::Wait, true), Course::Continue);
    assert_eq!(next_course(Action::Wait, false), Course::Continue);
}

#[test]
fn a_failed_flush_is_fatal() {
    assert_eq!(next_course(Action::Flush, false), Course::Exit(1));
    assert_eq!(next_course(Action::FlushAndStop, false), Course::Exit(1));
}

#[test]
fn a_flush_that_succeeded_goes_on_or_ends_cleanly() {
    assert_eq!(next_course(Action::Flush, true), Course::Continue);
    assert_eq!(next_course(Action::FlushAndStop, true), Course::Exit(0));
}
