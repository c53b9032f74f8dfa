//! Recording-session engine for a MIDI archiver.
//!
//! Live channel voice messages are buffered with delta times computed from
//! their arrival on a monotonic clock, and flushed as single-track Standard
//! MIDI Files named by date and time.

pub mod event;
pub mod timing;
pub mod smf;
pub mod archive;
pub mod session;
pub mod supervisor;
pub mod ports;
