//! The command and notification language the control path, the engines and
//! the display exchange.  Frequencies travel as millihertz and levels as
//! whole decibels relative to full scale, so every event is a plain value.

use vstd::prelude::*;
use crate::devices::DeviceList;

verus! {

/// Every message exchanged between the control path, the two engines and
/// the display collaborator.
#[derive(Debug, Clone, PartialEq)]
#[allow(inconsistent_fields)]
pub enum EventType {
    /// New formatted level readings for the display.
    MeterLevelUpdate { left: String, right: String },
    /// Delta mode switched on or off.
    MeterModeUpdate(bool),
    /// The meter must rebind to this device and channel pair.
    MeterDeviceUpdate { name: String, left: String, right: Option<String> },
    /// A new reference frequency, in millihertz.
    ToneFrequencyUpdate(u64),
    /// A new reference level, in whole dBFS.
    ToneLevelUpdate(i32),
    /// The tone generator must rebind to this device and channel pair.
    ToneDeviceUpdate { name: String, left: String, right: Option<String> },
    /// Waveform shape switched between sine and square.
    ToneModeUpdate(bool),
    /// A fresh enumeration snapshot of the input devices.
    InputDeviceListUpdate(DeviceList),
    /// A fresh enumeration snapshot of the output devices.
    OutputDeviceListUpdate(DeviceList),
    /// The selected input device changed, by name.
    InputDeviceUpdate(String),
    /// The selected output device changed, by name.
    OutputDeviceUpdate(String),
    /// The selected input channel labels changed.
    InputChannelUpdate { left: String, right: Option<String> },
    /// The selected output channel labels changed.
    OutputChannelUpdate { left: String, right: Option<String> },
    /// A failure the engines recovered from, for the display.
    RecoverableError(String),
    /// A failure that ends metering or synthesis, for the display.
    FatalError(String),
    /// Begin playing and metering.
    Start,
    /// Pause playing and metering.
    Stop,
    /// End the control loop.
    Exit,
}

} // verus!
