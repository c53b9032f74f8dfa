//! The flush policy: when a supervisor polling the session has to flush it.
//!
//! The supervisor itself, which sleeps between polls and waits for the
//! termination signal, is the caller's; what it does at each trigger is
//! decided here.

use vstd::prelude::*;
use crate::session::{RecordingSession, SessionView};
use crate::timing::elapsed_nanos;

verus! {

/// Silence after which a recording is flushed: eight seconds, in
/// nanoseconds.
pub const INACTIVITY_LIMIT_NANOS: u64 = 8_000_000_000;

/// What wakes the supervisor.
#[derive(Clone, Copy, Debug, PartialEq, Eq, Structural)]
pub enum Trigger {
    /// The periodic check, with the reading of the monotonic clock.
    Poll { now: u64 },
    /// The request to terminate.
    Shutdown,
}

/// What the supervisor does next.
#[derive(Clone, Copy, Debug, PartialEq, Eq, Structural)]
pub enum Action {
    /// Nothing: go on polling.
    Wait,
    /// Flush the session, then go on polling.
    Flush,
    /// Flush the session whatever its state, then stop.
    FlushAndStop,
}

/// Whether more than the inactivity limit has passed at `now` since the last
/// buffered event. Never so while nothing is buffered.
pub open spec fn inactive_too_long(last_event_time: Option<u64>, now: u64) -> bool {
    match last_event_time {
        Some(last) => elapsed_nanos(last, now) > INACTIVITY_LIMIT_NANOS,
        None => false,
    }
}

/// The action a trigger calls for in a given state.
pub open spec fn action_for(view: SessionView, trigger: Trigger) -> Action {
    match trigger {
        Trigger::Shutdown => Action::FlushAndStop,
        Trigger::Poll { now } => if inactive_too_long(view.last_event_time, now) {
            Action::Flush
        } else {
            Action::Wait
        },
    }
}

/// Whether the session has been silent for more than the inactivity limit.
pub fn flush_due(session: &RecordingSession, now: u64) -> (due: bool)
    ensures
        due == inactive_too_long(session@.last_event_time, now),
{
    match session.last_event_time() {
        Some(last) => now > last && now - last > INACTIVITY_LIMIT_NANOS,
        None => false,
    }
}

/// Decides what the supervisor does at a trigger.
pub fn next_action(session: &RecordingSession, trigger: Trigger) -> (action: Action)
    ensures
        action == action_for(session@, trigger),
{
    match trigger {
        Trigger::Shutdown => Action::FlushAndStop,
        Trigger::Poll { now } => if flush_due(session, now) {
            Action::Flush
        } else {
            Action::Wait
        },
    }
}

/// How the supervisor goes on after an action.
#[derive(Clone, Copy, Debug, PartialEq, Eq, Structural)]
pub enum Course {
    /// Go on polling.
    Continue,
    /// Leave the loop and end the process with this exit status.
    Exit(u8),
}

/// The course after an action whose flush, if it made one, succeeded or
/// failed: a failed flush is fatal, a flush on shutdown ends the process
/// cleanly, anything else goes on.
pub open spec fn course_after(action: Action, flushed: bool) -> Course {
    match action {
        Action::Wait => Course::Continue,
        Action::Flush => if flushed {
            Course::Continue
        } else {
            Course::Exit(1)
        },
        Action::FlushAndStop => if flushed {
            Course::Exit(0)
        } else {
            Course::Exit(1)
        },
    }
}

/// Decides how the supervisor goes on after it performed `action`;
/// `flushed` says whether the flush succeeded, and counts for nothing where
/// the action was to wait.
pub fn next_course(action: Action, flushed: bool) -> (course: Course)
    ensures
        course == course_after(action, flushed),
{
    match action {
        Action::Wait => Course::Continue,
        Action::Flush => if flushed {
            Course::Continue
        } else {
            Course::Exit(1)
        },
        Action::FlushAndStop => if flushed {
            Course::Exit(0)
        } else {
            Course::Exit(1)
        },
    }
}

/// An idle session is never flushed by a poll.
pub proof fn lemma_idle_is_left_alone(view: SessionView, now: u64)
    requires
        view.inv(),
        view.is_idle(),
    ensures
        action_for(view, Trigger::Poll { now }) == Action::Wait,
{
}

} // verus!
