//! Timing and shared-channel logic for a flight-controller board: a wide
//! microsecond clock built from a 16-bit hardware counter and a software
//! overflow count, the state machine behind the counter's overflow interrupt,
//! the decisions of a mutex-guarded USB virtual-serial channel, and a
//! publish-once cell for peripheral handles.
pub mod bridge;
pub mod channel;
pub mod clock;
pub mod registry;
pub mod words;
