//! The tone-generator engine as a state machine: the reference-tone
//! parameter store, and the hot-swap protocol that rebinds the output
//! stream to a new device or channel pair.  The synthesis itself (the
//! phase accumulator and the dBFS gain) runs in the real-time callback
//! outside the library; it reads the parameters kept here.

use vstd::prelude::*;
use vstd::string::*;
use crate::devices::{
    canonical_channel_labels, get_channel_indexes_from_channel_names, get_default_device_data,
    get_output_device_data_current_index, lemma_valid_label_parses, option_label_view,
    resolution_outcome, resolved_index, CurrentDevice, DeviceList,
};
use crate::digits::{dec_rep, parse_error_message};
use crate::errors::LocalError;
use crate::events::EventType;
use crate::level_meter::{StreamCommand, StreamRequest};

verus! {

/// The reference frequency the instrument starts with, in millihertz.
pub const DEFAULT_REFERENCE_FREQUENCY_MILLIHERTZ: u64 = 1_000_000;

/// The reference level the instrument starts with, in whole dBFS.
pub const DEFAULT_REFERENCE_LEVEL: i32 = -18;

/// The two waveform shapes the synthesizer implements.
#[derive(Clone, Copy, Debug, PartialEq, Eq, Structural)]
pub enum Waveform {
    Sine,
    Square,
}

/// The live-adjustable parameters of the reference tone.  The frequency is
/// kept in millihertz and the level in whole dBFS, so both are plain
/// integers; the synthesis callback converts when it computes samples.
#[derive(Clone, Copy, Debug, PartialEq, Eq, Structural)]
pub struct ToneParameters {
    pub frequency_millihertz: u64,
    pub level: i32,
    pub waveform: Waveform,
}

impl ToneParameters {
    /// Applies one control event to the parameter store and says whether
    /// the level changed, so the caller knows to recompute its gain.
    pub fn apply_update(&mut self, event: &EventType) -> (level_changed: bool)
        ensures
            match event {
                EventType::ToneFrequencyUpdate(f) => final(self).frequency_millihertz == f && final(self).level == old(self).level && final(self).waveform == old(self).waveform,
                EventType::ToneLevelUpdate(l) => final(self).level == l && final(self).frequency_millihertz == old(self).frequency_millihertz && final(self).waveform
                    == old(self).waveform,
                EventType::ToneModeUpdate(sine_enabled) => final(self).waveform == (if *sine_enabled {
                    Waveform::Sine
                } else {
                    Waveform::Square
                }) && final(self).frequency_millihertz == old(self).frequency_millihertz && final(self).level == old(self).level,
                _ => *final(self) == *old(self),
            },
            level_changed == (final(self).level != old(self).level),
    {
        match event {
            EventType::ToneFrequencyUpdate(f) => {
                self.frequency_millihertz = *f;
                false
            },
            EventType::ToneLevelUpdate(l) => {
                let changed = *l != self.level;
                self.level = *l;
                changed
            },
            EventType::ToneModeUpdate(sine_enabled) => {
                self.waveform = if *sine_enabled {
                    Waveform::Sine
                } else {
                    Waveform::Square
                };
                false
            },
            _ => false,
        }
    }
}

/// What a successful hot-swap step tells the host collaborator, and how
/// the engine state looks afterwards.
pub open spec fn swap_result_matches(
    r: Result<StreamRequest, LocalError>,
    device_name: String,
    left: String,
    right: Option<String>,
) -> bool {
    match resolution_outcome(left@, option_label_view(right)) {
        Ok((li, ri)) => r matches Ok(req) && req.device_name == device_name && req.left_index
            == li && req.right_index == ri,
        Err(e) => r matches Err(LocalError::ChannelIndex(m)) && m@ == parse_error_message(e),
    }
}

/// The tone-generator engine state: the last output-device enumeration
/// snapshot, the device and channels the output stream is bound to, the
/// reference-tone parameters, and whether the stream is playing.
pub struct ToneGenerator {
    pub output_device_list: DeviceList,
    pub current_output_device: CurrentDevice,
    pub reference_tone: ToneParameters,
    pub playing: bool,
}

impl ToneGenerator {
    /// Builds the engine state and the request for its first output
    /// stream, which the host must leave paused.  Fails exactly when the
    /// configured channel labels do not parse.
    pub fn new(
        output_device_list: DeviceList,
        current_output_device: CurrentDevice,
        reference_tone: ToneParameters,
    ) -> (r: Result<(Self, StreamRequest), LocalError>)
        ensures
            match resolution_outcome(
                current_output_device.left_channel@,
                option_label_view(current_output_device.right_channel),
            ) {
                Ok((li, ri)) => r matches Ok((tg, req)) && tg.output_device_list
                    == output_device_list && tg.current_output_device == current_output_device
                    && tg.reference_tone == reference_tone && !tg.playing && req.device_name
                    == current_output_device.name && req.left_index == li && req.right_index == ri,
                Err(e) => r matches Err(LocalError::ChannelIndex(m)) && m@ == parse_error_message(
                    e,
                ),
            },
    {
        let (left_index, right_index) = match get_channel_indexes_from_channel_names(
            current_output_device.left_channel.as_str(),
            &current_output_device.right_channel,
        ) {
            Ok(p) => p,
            Err(e) => {
                return Err(e);
            },
        };
        let request = StreamRequest {
            device_name: current_output_device.name.clone(),
            left_index,
            right_index,
        };
        let engine = ToneGenerator {
            output_device_list,
            current_output_device,
            reference_tone,
            playing: false,
        };
        Ok((engine, request))
    }

    /// Starts playback.  Issuing Start while already playing is a no-op.
    pub fn start(&mut self) -> (cmd: StreamCommand)
        ensures
            final(self).playing,
            final(self).output_device_list == old(self).output_device_list,
            final(self).current_output_device == old(self).current_output_device,
            final(self).reference_tone == old(self).reference_tone,
            cmd == (if old(self).playing {
                StreamCommand::NoAction
            } else {
                StreamCommand::Play
            }),
    {
        let was_playing = self.playing;
        self.playing = true;
        if was_playing {
            StreamCommand::NoAction
        } else {
            StreamCommand::Play
        }
    }

    /// Stops playback.  Issuing Stop while already stopped is a no-op.
    pub fn stop(&mut self) -> (cmd: StreamCommand)
        ensures
            !final(self).playing,
            final(self).output_device_list == old(self).output_device_list,
            final(self).current_output_device == old(self).current_output_device,
            final(self).reference_tone == old(self).reference_tone,
            cmd == (if old(self).playing {
                StreamCommand::Pause
            } else {
                StreamCommand::NoAction
            }),
    {
        let was_playing = self.playing;
        self.playing = false;
        if was_playing {
            StreamCommand::Pause
        } else {
            StreamCommand::NoAction
        }
    }

    /// The current reference-tone parameters, for the synthesis callback.
    pub fn get_reference_tone_parameters(&self) -> (r: ToneParameters)
        ensures
            r == self.reference_tone,
    {
        self.reference_tone
    }

    /// The last output-device enumeration snapshot.
    pub fn get_output_device_list(&self) -> (r: DeviceList)
        ensures
            crate::devices::device_list_like(r, self.output_device_list),
    {
        self.output_device_list.clone()
    }

    /// The device and channels the output stream is bound to.
    pub fn get_current_output_device(&self) -> (r: CurrentDevice)
        ensures
            r == self.current_output_device,
    {
        self.current_output_device.clone()
    }

    /// The channel labels of the currently bound output device.
    pub fn get_current_output_device_channels(&self) -> (r: Vec<String>)
        requires
            0 <= self.current_output_device.index < self.output_device_list.channels@.len(),
        ensures
            r@ == self.output_device_list.channels@[self.current_output_device.index as int]@,
    {
        crate::devices::clone_string_vec(
            &self.output_device_list.channels[self.current_output_device.index as usize],
        )
    }

    /// Replaces the reference-tone parameters from the control path.
    pub fn set_reference_tone_on_ui_callback(&mut self, reference_tone: &ToneParameters)
        ensures
            final(self).reference_tone == reference_tone,
            final(self).output_device_list == old(self).output_device_list,
            final(self).current_output_device == old(self).current_output_device,
            final(self).playing == old(self).playing,
    {
        self.reference_tone = *reference_tone;
    }

    /// Binds the engine to the device chosen on the control path, deriving
    /// the channel pair afresh from the new device's own channel list: its
    /// first label becomes the left channel and its second, when the device
    /// has more than one, the right.  The rebuilt stream is left paused.
    pub fn update_current_output_device(&mut self, index: i32, name: String) -> (r: Result<
        StreamRequest,
        LocalError,
    >)
        requires
            0 <= index < old(self).output_device_list.channels@.len(),
            old(self).output_device_list.channels@[index as int].len() >= 1,
        ensures
            ({
                let channels = old(self).output_device_list.channels@[index as int];
                let left = channels[0];
                let right = if channels.len() > 1 {
                    Some(channels[1])
                } else {
                    None::<String>
                };
                &&& final(self).output_device_list == old(self).output_device_list
                &&& final(self).reference_tone == old(self).reference_tone
                &&& !final(self).playing
                &&& final(self).current_output_device.index == index
                &&& final(self).current_output_device.name == name
                &&& final(self).current_output_device.left_channel == left
                &&& final(self).current_output_device.right_channel == right
                &&& swap_result_matches(r, name, left, right)
            }),
    {
        let channels = &self.output_device_list.channels[index as usize];
        let left_channel = channels[0].clone();
        let right_channel = if channels.len() > 1 {
            Some(channels[1].clone())
        } else {
            None
        };
        self.current_output_device = CurrentDevice {
            index,
            name,
            left_channel,
            right_channel,
        };
        self.playing = false;
        self.rebuild_request()
    }

    /// Rebinds the output stream to new channel labels on the current
    /// device.  The labels are stored even when one fails to parse; the
    /// stream is only replaced on success, and left paused.
    pub fn set_output_channel_on_ui_callback(
        &mut self,
        left_output_channel: String,
        right_output_channel: Option<String>,
    ) -> (r: Result<StreamRequest, LocalError>)
        ensures
            final(self).output_device_list == old(self).output_device_list,
            final(self).reference_tone == old(self).reference_tone,
            !final(self).playing,
            final(self).current_output_device.index == old(self).current_output_device.index,
            final(self).current_output_device.name == old(self).current_output_device.name,
            final(self).current_output_device.left_channel == left_output_channel,
            final(self).current_output_device.right_channel == right_output_channel,
            swap_result_matches(
                r,
                old(self).current_output_device.name,
                left_output_channel,
                right_output_channel,
            ),
    {
        self.current_output_device.left_channel = left_output_channel;
        self.current_output_device.right_channel = right_output_channel;
        self.playing = false;
        self.rebuild_request()
    }

    /// Rebinds the engine to the given device and channel selection.  The
    /// selection is stored even when a label fails to parse; the stream is
    /// only replaced on success, and left paused.
    pub fn set_output_device(&mut self, device: CurrentDevice) -> (r: Result<
        StreamRequest,
        LocalError,
    >)
        ensures
            final(self).output_device_list == old(self).output_device_list,
            final(self).reference_tone == old(self).reference_tone,
            !final(self).playing,
            final(self).current_output_device == device,
            swap_result_matches(r, device.name, device.left_channel, device.right_channel),
    {
        self.current_output_device = device;
        self.playing = false;
        self.rebuild_request()
    }

    /// The stream request for the currently stored device and channels.
    fn rebuild_request(&self) -> (r: Result<StreamRequest, LocalError>)
        ensures
            swap_result_matches(
                r,
                self.current_output_device.name,
                self.current_output_device.left_channel,
                self.current_output_device.right_channel,
            ),
    {
        match get_channel_indexes_from_channel_names(
            self.current_output_device.left_channel.as_str(),
            &self.current_output_device.right_channel,
        ) {
            Ok((left_index, right_index)) => Ok(
                StreamRequest {
                    device_name: self.current_output_device.name.clone(),
                    left_index,
                    right_index,
                },
            ),
            Err(e) => Err(e),
        }
    }

    /// Falls back to the host's default output device after the configured
    /// one vanished: looks the default device up in the last enumeration
    /// snapshot, derives its channel pair from its own labels, and rebinds.
    pub fn reset_to_default_output_device(
        &mut self,
        default_device_name: String,
        default_device_channels: &Vec<String>,
    ) -> (r: Result<(CurrentDevice, StreamRequest), LocalError>)
        requires
            default_device_channels@.len() >= 1,
            old(self).output_device_list.devices@.len() <= i32::MAX,
        ensures
            final(self).output_device_list == old(self).output_device_list,
            final(self).reference_tone == old(self).reference_tone,
            !final(self).playing,
            final(self).current_output_device.name == default_device_name,
            final(self).current_output_device.left_channel == default_device_channels@[0],
            final(self).current_output_device.right_channel == (if default_device_channels@.len()
                > 1 {
                Some(default_device_channels@[1])
            } else {
                None::<String>
            }),
            match r {
                Ok((device, _)) => device == final(self).current_output_device,
                Err(_) => true,
            },
            swap_result_matches(
                match r {
                    Ok((_, req)) => Ok(req),
                    Err(e) => Err(e),
                },
                default_device_name,
                default_device_channels@[0],
                if default_device_channels@.len() > 1 {
                    Some(default_device_channels@[1])
                } else {
                    None::<String>
                },
            ),
    {
        let device = get_default_device_data_from_output_device(
            default_device_name,
            &self.output_device_list.devices,
            default_device_channels,
        );
        let current = device.clone();
        match self.set_output_device(device) {
            Ok(req) => Ok((current, req)),
            Err(e) => Err(e),
        }
    }

    /// One step of the tone-generator control loop.
    pub fn handle_event(&mut self, event: &EventType) -> (r: Result<StreamCommand, LocalError>)
        ensures
            match event {
                EventType::Start => r == Ok::<StreamCommand, LocalError>(
                    if old(self).playing {
                        StreamCommand::NoAction
                    } else {
                        StreamCommand::Play
                    },
                ) && final(self).playing && final(self).current_output_device == old(
                    self,
                ).current_output_device && final(self).reference_tone == old(self).reference_tone
                    && final(self).output_device_list == old(self).output_device_list,
                EventType::Stop => r == Ok::<StreamCommand, LocalError>(
                    if old(self).playing {
                        StreamCommand::Pause
                    } else {
                        StreamCommand::NoAction
                    },
                ) && !final(self).playing && final(self).current_output_device == old(
                    self,
                ).current_output_device && final(self).reference_tone == old(self).reference_tone
                    && final(self).output_device_list == old(self).output_device_list,
                EventType::ToneFrequencyUpdate(_) | EventType::ToneLevelUpdate(_)
                    | EventType::ToneModeUpdate(_) => r == Ok::<StreamCommand, LocalError>(
                    StreamCommand::NoAction,
                ) && final(self).current_output_device == old(self).current_output_device && final(self).playing == old(self).playing && final(self).output_device_list == old(
                    self,
                ).output_device_list,
                EventType::OutputDeviceListUpdate(list) => r == Ok::<StreamCommand, LocalError>(
                    StreamCommand::NoAction,
                ) && crate::devices::device_list_like(final(self).output_device_list, *list)
                    && final(self).current_output_device == old(self).current_output_device
                    && final(self).reference_tone == old(self).reference_tone && final(self).playing == old(self).playing,
                EventType::OutputChannelUpdate { left, right } => {
                    &&& final(self).current_output_device.left_channel == left
                    &&& final(self).current_output_device.right_channel == right
                    &&& !final(self).playing
                    &&& match resolution_outcome(left@, option_label_view(*right)) {
                        Ok((li, ri)) => r matches Ok(StreamCommand::Rebuild(req))
                            && req.device_name == old(self).current_output_device.name
                            && req.left_index == li && req.right_index == ri,
                        Err(e) => r matches Err(LocalError::ChannelIndex(m)) && m@
                            == parse_error_message(e),
                    }
                },
                EventType::ToneDeviceUpdate { name, left, right } => {
                    &&& final(self).current_output_device.name == name
                    &&& final(self).current_output_device.left_channel == left
                    &&& final(self).current_output_device.right_channel == right
                    &&& !final(self).playing
                    &&& match resolution_outcome(left@, option_label_view(*right)) {
                        Ok((li, ri)) => r matches Ok(StreamCommand::Rebuild(req))
                            && req.device_name == name && req.left_index == li && req.right_index
                            == ri,
                        Err(e) => r matches Err(LocalError::ChannelIndex(m)) && m@
                            == parse_error_message(e),
                    }
                },
                _ => r == Ok::<StreamCommand, LocalError>(StreamCommand::NoAction) && *final(self)
                    == *old(self),
            },
    {
        match event {
            EventType::Start => Ok(self.start()),
            EventType::Stop => Ok(self.stop()),
            EventType::ToneFrequencyUpdate(_) | EventType::ToneLevelUpdate(_)
                | EventType::ToneModeUpdate(_) => {
                self.reference_tone.apply_update(event);
                Ok(StreamCommand::NoAction)
            },
            EventType::OutputDeviceListUpdate(list) => {
                self.output_device_list = list.clone();
                Ok(StreamCommand::NoAction)
            },
            EventType::OutputChannelUpdate { left, right } => {
                match self.set_output_channel_on_ui_callback(left.clone(), crate::devices::clone_option_string(right)) {
                    Ok(req) => Ok(StreamCommand::Rebuild(req)),
                    Err(e) => Err(e),
                }
            },
            EventType::ToneDeviceUpdate { name, left, right } => {
                let device = CurrentDevice {
                    index: self.current_output_device.index,
                    name: name.clone(),
                    left_channel: left.clone(),
                    right_channel: crate::devices::clone_option_string(right),
                };
                match self.set_output_device(device) {
                    Ok(req) => Ok(StreamCommand::Rebuild(req)),
                    Err(e) => Err(e),
                }
            },
            _ => Ok(StreamCommand::NoAction),
        }
    }
}

/// Derives the selection record for an output device from its name and its
/// own channel labels: the device's position in the enumeration snapshot
/// (or 0 when the name is absent from it), its first label as the left
/// channel, and its second label, when it has more than one, as the right.
pub fn get_default_device_data_from_output_device(
    name: String,
    device_list: &Vec<String>,
    channels: &Vec<String>,
) -> (r: CurrentDevice)
    requires
        channels@.len() >= 1,
        device_list@.len() <= i32::MAX,
    ensures
        r.name == name,
        0 <= r.index <= device_list@.len(),
        ({
            let names = device_list@.map_values(|s: String| s@);
            &&& (exists|i: int| 0 <= i < names.len() && names[i] == name@) ==> (
            names[r.index as int] == name@ && forall|j: int|
                0 <= j < r.index ==> names[j] != name@)
            &&& (forall|i: int| 0 <= i < names.len() ==> names[i] != name@) ==> r.index == 0
        }),
        r.left_channel == channels@[0],
        r.right_channel == (if channels@.len() > 1 {
            Some(channels@[1])
        } else {
            None::<String>
        }),
{
    let index = get_output_device_data_current_index(device_list, name.as_str());
    get_default_device_data(name, index, channels)
}

/// A hot-swap to a device with fewer channels than the previously selected
/// right channel cannot go out of range: the channel pair is re-derived
/// from the new device's own channel list, so the left offset resolves to
/// 0 and the right offset, present only when the new device has a second
/// channel, to 1 — both within the new device's channel count, whatever
/// was selected before.
pub proof fn lemma_hot_swap_stays_in_range(channels: Seq<Seq<char>>)
    requires
        canonical_channel_labels(channels),
        channels.len() >= 1,
    ensures
        resolution_outcome(
            channels[0],
            if channels.len() > 1 {
                Some(channels[1])
            } else {
                None
            },
        ) == Ok::<(usize, Option<usize>), crate::digits::ParseNumberError>(
            (
                0,
                if channels.len() > 1 {
                    Some(1usize)
                } else {
                    None
                },
            ),
        ),
        0 < channels.len(),
        channels.len() > 1 ==> 1 < channels.len(),
{
    assert(channels[0] == dec_rep(1));
    lemma_valid_label_parses(1);
    assert(resolved_index(1usize) == 0);
    if channels.len() > 1 {
        assert(channels[1] == dec_rep(2));
        lemma_valid_label_parses(2);
        assert(resolved_index(2usize) == 1);
    }
}

} // verus!
