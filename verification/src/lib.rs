//! Verified core of an audio-calibration instrument.
//!
//! The library holds the logic that can be stated and proved over plain
//! values: channel-label resolution, the error catalogue and its display
//! messages, the level-meter analysis pipeline (windowing, delta mode and
//! the display formatting rule), the tone-generator hot-swap state machine,
//! and the device-list bookkeeping.  The platform audio host, the real-time
//! sample callbacks and every floating-point computation live outside the
//! library and talk to it through the plain data types defined here.

pub mod digits;
pub mod errors;
pub mod devices;
pub mod events;
pub mod level_meter;
pub mod tone_generator;
pub mod device_manager;
