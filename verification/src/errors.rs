//! The error catalogue of the instrument and the display message of each
//! error, specified exactly.

use vstd::prelude::*;
use vstd::string::*;

verus! {

/// Every failure the instrument reports.  Variants carrying a `String` hold
/// the message of the underlying failure they wrap.
#[derive(Debug, Clone, PartialEq, Eq)]
pub enum LocalError {
    LevelMeterInitialization(String),
    LevelMeterReadRingBuffer(String),
    LevelMeterUISender,
    LevelMeterReceiver,
    LevelMeterReferenceLevel,
    LevelMeterDeltaMode,
    LevelMeterReaderUIUpdater,
    LevelMeterLoopExitError(String),
    LevelMeterInputStreamFailure,
    LevelMeterStart(String),
    LevelMeterStop(String),
    LevelMeterConfigureInputStream(String),
    ToneGeneratorInitialization,
    ToneGeneratorStart(String),
    ToneGeneratorStop(String),
    ToneGeneratorOutputStream(String),
    UIInitialization,
    UIInitialPopulation,
    UIDeviceData(String),
    DeviceManagerInitialization,
    NoDefaultInputDevice,
    NoDefaultOutputDevice,
    DeviceNotFound(String),
    DeviceNameNotPresent(String),
    DeviceConfiguration(String),
    ChannelIndex(String),
    FatalError,
}

/// The display message of each error.
pub open spec fn local_error_message(e: LocalError) -> Seq<char> {
    match e {
        LocalError::LevelMeterInitialization(m) => "Error Initializing Level Meter: "@ + m@,
        LocalError::LevelMeterReadRingBuffer(m) => "Error Reading Input Samples from Buffer: "@
            + m@,
        LocalError::LevelMeterUISender => "Error sending level meter value updates to the UI"@,
        LocalError::LevelMeterReceiver =>
            "Error retrieving shared Level Meter receiver. Recovering Data."@,
        LocalError::LevelMeterReferenceLevel =>
            "Error retrieving shared Level Meter reference level. Recovering Data."@,
        LocalError::LevelMeterDeltaMode =>
            "Error retrieving shared Level Meter delta mode state. Recovering Data."@,
        LocalError::LevelMeterReaderUIUpdater =>
            "Could not initialize the meter reader UI process"@,
        LocalError::LevelMeterLoopExitError(m) => "Level Reader Exited Abnormally: "@ + m@,
        LocalError::LevelMeterInputStreamFailure => "The level meter input steam failed."@,
        LocalError::LevelMeterStart(m) => "Error starting the level meter: "@ + m@,
        LocalError::LevelMeterStop(m) => "Error stoping the level meter: "@ + m@,
        LocalError::LevelMeterConfigureInputStream(m) =>
            "Failed to configure an input stream: "@ + m@,
        LocalError::ToneGeneratorInitialization => "Error Initializing Tone Generator"@,
        LocalError::ToneGeneratorStart(m) => "Error starting the tone generator: "@ + m@,
        LocalError::ToneGeneratorStop(m) => "Error stoping the tone generator: "@ + m@,
        LocalError::ToneGeneratorOutputStream(m) => "Failed to configure an output stream: "@
            + m@,
        LocalError::UIInitialization => "Error Initializing User Interface"@,
        LocalError::UIInitialPopulation => "Error Populating User Interface"@,
        LocalError::UIDeviceData(m) => "Error Retrieving the Audio Devices Data for the UI: "@
            + m@,
        LocalError::DeviceManagerInitialization => "Error Initializing Audio Devices"@,
        LocalError::NoDefaultInputDevice => "No Default Input Audio Devices"@,
        LocalError::NoDefaultOutputDevice => "No Default Output Audio Devices"@,
        LocalError::DeviceNotFound(m) => "Device "@ + m@ + " no longer exists"@,
        LocalError::DeviceNameNotPresent(m) => "A device named "@ + m@
            + " no longer exists on this host."@,
        LocalError::DeviceConfiguration(m) => "Failed to access device configuration: "@ + m@,
        LocalError::ChannelIndex(m) => "Failed to generate channel index: "@ + m@,
        LocalError::FatalError => "A fatal error has occured and the application is not exiting."@,
    }
}

impl LocalError {
    /// Renders the display message of this error.
    pub fn message(&self) -> (r: String)
        ensures
            r@ == local_error_message(*self),
    {
        match self {
            LocalError::LevelMeterInitialization(m) => prefixed(
                "Error Initializing Level Meter: ",
                m,
            ),
            LocalError::LevelMeterReadRingBuffer(m) => prefixed(
                "Error Reading Input Samples from Buffer: ",
                m,
            ),
            LocalError::LevelMeterUISender => String::from_str(
                "Error sending level meter value updates to the UI",
            ),
            LocalError::LevelMeterReceiver => String::from_str(
                "Error retrieving shared Level Meter receiver. Recovering Data.",
            ),
            LocalError::LevelMeterReferenceLevel => String::from_str(
                "Error retrieving shared Level Meter reference level. Recovering Data.",
            ),
            LocalError::LevelMeterDeltaMode => String::from_str(
                "Error retrieving shared Level Meter delta mode state. Recovering Data.",
            ),
            LocalError::LevelMeterReaderUIUpdater => String::from_str(
                "Could not initialize the meter reader UI process",
            ),
            LocalError::LevelMeterLoopExitError(m) => prefixed(
                "Level Reader Exited Abnormally: ",
                m,
            ),
            LocalError::LevelMeterInputStreamFailure => String::from_str(
                "The level meter input steam failed.",
            ),
            LocalError::LevelMeterStart(m) => prefixed("Error starting the level meter: ", m),
            LocalError::LevelMeterStop(m) => prefixed("Error stoping the level meter: ", m),
            LocalError::LevelMeterConfigureInputStream(m) => prefixed(
                "Failed to configure an input stream: ",
                m,
            ),
            LocalError::ToneGeneratorInitialization => String::from_str(
                "Error Initializing Tone Generator",
            ),
            LocalError::ToneGeneratorStart(m) => prefixed(
                "Error starting the tone generator: ",
                m,
            ),
            LocalError::ToneGeneratorStop(m) => prefixed("Error stoping the tone generator: ", m),
            LocalError::ToneGeneratorOutputStream(m) => prefixed(
                "Failed to configure an output stream: ",
                m,
            ),
            LocalError::UIInitialization => String::from_str("Error Initializing User Interface"),
            LocalError::UIInitialPopulation => String::from_str(
                "Error Populating User Interface",
            ),
            LocalError::UIDeviceData(m) => prefixed(
                "Error Retrieving the Audio Devices Data for the UI: ",
                m,
            ),
            LocalError::DeviceManagerInitialization => String::from_str(
                "Error Initializing Audio Devices",
            ),
            LocalError::NoDefaultInputDevice => String::from_str(
                "No Default Input Audio Devices",
            ),
            LocalError::NoDefaultOutputDevice => String::from_str(
                "No Default Output Audio Devices",
            ),
            LocalError::DeviceNotFound(m) => {
                let mut s = prefixed("Device ", m);
                s.append(" no longer exists");
                s
            },
            LocalError::DeviceNameNotPresent(m) => {
                let mut s = prefixed("A device named ", m);
                s.append(" no longer exists on this host.");
                s
            },
            LocalError::DeviceConfiguration(m) => prefixed(
                "Failed to access device configuration: ",
                m,
            ),
            LocalError::ChannelIndex(m) => prefixed("Failed to generate channel index: ", m),
            LocalError::FatalError => String::from_str(
                "A fatal error has occured and the application is not exiting.",
            ),
        }
    }
}

/// A fixed prefix followed by a wrapped message.
fn prefixed(prefix: &str, m: &String) -> (r: String)
    ensures
        r@ == prefix@ + m@,
{
    let mut s = String::from_str(prefix);
    s.append(m.as_str());
    s
}

} // verus!
