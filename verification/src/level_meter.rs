//! The level-meter pipeline: the analysis state over incoming sample
//! blocks, delta mode against the reference level, the display formatting
//! rule, and the stream-control machine that rebinds the input stream.
//!
//! A measured level reaches the library as a `LevelReading`: either
//! non-finite (an empty window measures negative infinity), or the level
//! rounded to tenths of a decibel, with a raw value between -0.1 and 0
//! already classified as 0 by the producer.  Everything after that point —
//! subtracting the reference level in delta mode, rendering the one-decimal
//! display string, deciding whether to re-emit — is verified here.

use vstd::prelude::*;
use vstd::string::*;
use crate::digits::{dec_rep, digit_char, digit_str, u64_to_string};
use crate::devices::{get_channel_indexes_from_channel_names, CurrentDevice};
use crate::errors::{local_error_message, LocalError};
use crate::events::EventType;

verus! {

/// How many sample blocks accumulate before one peak computation.
pub const INPUT_BUFFERS_FOR_PEAK_CALCULATION: usize = 20;

/// The capacity of the bounded queue between the input callback and the
/// analysis thread.
pub const RING_BUFFER_SIZE: usize = 1024;

/// The largest magnitude, in tenths of a decibel, a finite reading may
/// carry.  Far beyond any level a full-scale sample can measure, the bound
/// only keeps delta-mode arithmetic inside `i64`.
pub const TENTHS_LIMIT: i64 = 1_000_000_000_000_000;

/// One measured level: non-finite, or rounded to tenths of a decibel.
#[derive(Clone, Copy, Debug, PartialEq, Eq, Structural)]
pub enum LevelReading {
    /// The window measured no finite level (all-zero window, or overload).
    NonFinite,
    /// A finite level, in tenths of a decibel relative to full scale.
    Tenths(i64),
}

/// A finite reading stays inside the bound that keeps delta arithmetic
/// exact.
pub open spec fn reading_wf(r: LevelReading) -> bool {
    match r {
        LevelReading::NonFinite => true,
        LevelReading::Tenths(t) => -TENTHS_LIMIT <= t <= TENTHS_LIMIT,
    }
}

/// The one-decimal rendering of a value given in tenths: the whole part in
/// decimal, a dot, and the single tenths digit, with a minus sign in front
/// of negative values.
pub open spec fn tenths_seq(t: int) -> Seq<char> {
    if t < 0 {
        seq!['-'] + dec_rep(((-t) / 10) as nat) + seq!['.'] + seq![digit_char(((-t) % 10) as nat)]
    } else {
        dec_rep((t / 10) as nat) + seq!['.'] + seq![digit_char((t % 10) as nat)]
    }
}

/// The display rule for a finite value in tenths: one decimal, with a plus
/// sign exactly when the value lies above one tenth.
pub open spec fn delta_display_seq(t: int) -> Seq<char> {
    if t > 1 {
        seq!['+'] + tenths_seq(t)
    } else {
        tenths_seq(t)
    }
}

/// The value shown for a reading of `t` tenths: in delta mode the reference
/// level (whole decibels, so ten tenths each) is subtracted first.
pub open spec fn displayed_tenths(t: int, reference_db: int, delta_mode: bool) -> int {
    if delta_mode {
        t - 10 * reference_db
    } else {
        t
    }
}

/// The full display rule: non-finite readings render as "-", finite ones
/// as their (delta-adjusted) one-decimal value.
pub open spec fn reading_display(r: LevelReading, reference_db: int, delta_mode: bool) -> Seq<
    char,
> {
    match r {
        LevelReading::NonFinite => seq!['-'],
        LevelReading::Tenths(t) => delta_display_seq(
            displayed_tenths(t as int, reference_db, delta_mode),
        ),
    }
}

/// Renders a finite value in tenths by the display rule.
pub fn format_tenths(t: i64) -> (r: String)
    requires
        t != i64::MIN,
    ensures
        r@ == delta_display_seq(t as int),
{
    proof {
        reveal_strlit("+");
        reveal_strlit("-");
        reveal_strlit(".");
    }
    let mut s = if t > 1 {
        String::from_str("+")
    } else {
        String::new()
    };
    if t < 0 {
        s.append("-");
    }
    let a: u64 = if t < 0 {
        (-t) as u64
    } else {
        t as u64
    };
    let whole = u64_to_string(a / 10);
    s.append(whole.as_str());
    s.append(".");
    s.append(digit_str(a % 10));
    proof {
        assert(s@ =~= delta_display_seq(t as int));
    }
    s
}

/// Renders one reading for the display: "-" when non-finite, otherwise the
/// one-decimal value, less the reference level when delta mode is on.
pub fn format_level_reading(
    reading: LevelReading,
    reference_level_db: i32,
    delta_mode_enabled: bool,
) -> (r: String)
    requires
        reading_wf(reading),
    ensures
        r@ == reading_display(reading, reference_level_db as int, delta_mode_enabled),
{
    match reading {
        LevelReading::NonFinite => {
            proof {
                reveal_strlit("-");
            }
            let s = String::from_str("-");
            proof {
                assert(s@ =~= seq!['-']);
            }
            s
        },
        LevelReading::Tenths(t) => {
            let d: i64 = if delta_mode_enabled {
                t - 10 * (reference_level_db as i64)
            } else {
                t
            };
            format_tenths(d)
        },
    }
}

/// Toggling delta mode changes the displayed value by exactly the current
/// reference level: a finite reading is shown lower by ten tenths per
/// decibel of reference level when delta mode is on than when it is off,
/// and a non-finite reading renders as "-" either way.
pub proof fn lemma_delta_mode_offset(t: int, reference_db: int)
    ensures
        displayed_tenths(t, reference_db, true) == displayed_tenths(t, reference_db, false) - 10
            * reference_db,
        reading_display(LevelReading::NonFinite, reference_db, true) == reading_display(
            LevelReading::NonFinite,
            reference_db,
            false,
        ),
{
}

/// What the analysis loop does with one incoming block.
#[derive(Clone, Copy, Debug, PartialEq, Eq, Structural)]
pub enum BlockAction {
    /// Keep the block: the window is still filling.
    Collect,
    /// The window is full: measure it, then report through
    /// `on_window_measured`.
    AnalyzeWindow,
    /// The producer failed earlier: drain and drop the block.
    Ignore,
    /// The producer reports failure: raise a fatal notification.
    Fatal,
}

/// The analysis state of the level meter: how far the current window has
/// filled, the display settings, the last readings reported, and whether
/// the producer side is still alive.
pub struct SampleProcessor {
    pub blocks_collected: usize,
    pub delta_mode_enabled: bool,
    pub reference_level_db: i32,
    pub previous_left: LevelReading,
    pub previous_right: LevelReading,
    pub stream_alive: bool,
}

impl SampleProcessor {
    /// A fresh analysis state: empty window, nothing reported yet (the
    /// last readings start at full scale, zero tenths), producer alive.
    pub fn new(reference_level_db: i32, delta_mode_enabled: bool) -> (r: Self)
        ensures
            r.blocks_collected == 0,
            r.delta_mode_enabled == delta_mode_enabled,
            r.reference_level_db == reference_level_db,
            r.previous_left == LevelReading::Tenths(0),
            r.previous_right == LevelReading::Tenths(0),
            r.stream_alive,
    {
        SampleProcessor {
            blocks_collected: 0,
            delta_mode_enabled,
            reference_level_db,
            previous_left: LevelReading::Tenths(0),
            previous_right: LevelReading::Tenths(0),
            stream_alive: true,
        }
    }

    /// Accounts for one block arriving from the bounded queue.  A dead
    /// block marks the producer failed; once failed, later blocks are
    /// drained but no longer interpreted.  When a block arrives on top of
    /// a full window the caller must measure the window; the new block
    /// starts the next one.
    pub fn on_block(&mut self, alive: bool) -> (a: BlockAction)
        ensures
            final(self).delta_mode_enabled == old(self).delta_mode_enabled,
            final(self).reference_level_db == old(self).reference_level_db,
            final(self).previous_left == old(self).previous_left,
            final(self).previous_right == old(self).previous_right,
            !alive ==> a == BlockAction::Fatal && !final(self).stream_alive && final(self).blocks_collected == old(self).blocks_collected,
            alive ==> final(self).stream_alive == old(self).stream_alive,
            alive && !old(self).stream_alive ==> a == BlockAction::Ignore && final(self).blocks_collected == old(self).blocks_collected,
            alive && old(self).stream_alive && old(self).blocks_collected
                > INPUT_BUFFERS_FOR_PEAK_CALCULATION ==> a == BlockAction::AnalyzeWindow && final(self).blocks_collected == 1,
            alive && old(self).stream_alive && old(self).blocks_collected
                <= INPUT_BUFFERS_FOR_PEAK_CALCULATION ==> a == BlockAction::Collect && final(self).blocks_collected == old(self).blocks_collected + 1,
    {
        if !alive {
            self.stream_alive = false;
            return BlockAction::Fatal;
        }
        if !self.stream_alive {
            return BlockAction::Ignore;
        }
        if self.blocks_collected > INPUT_BUFFERS_FOR_PEAK_CALCULATION {
            self.blocks_collected = 1;
            BlockAction::AnalyzeWindow
        } else {
            self.blocks_collected = self.blocks_collected + 1;
            BlockAction::Collect
        }
    }

    /// Takes the readings measured over one full window and decides what
    /// to show: nothing when both readings repeat the last reported pair,
    /// otherwise the freshly formatted left and right display strings.
    pub fn on_window_measured(&mut self, left: LevelReading, right: LevelReading) -> (r: Option<
        (String, String),
    >)
        requires
            reading_wf(left),
            reading_wf(right),
        ensures
            final(self).blocks_collected == old(self).blocks_collected,
            final(self).delta_mode_enabled == old(self).delta_mode_enabled,
            final(self).reference_level_db == old(self).reference_level_db,
            final(self).stream_alive == old(self).stream_alive,
            (left == old(self).previous_left && right == old(self).previous_right) ==> r is None
                && final(self).previous_left == old(self).previous_left && final(self).previous_right == old(self).previous_right,
            !(left == old(self).previous_left && right == old(self).previous_right) ==> {
                &&& final(self).previous_left == left
                &&& final(self).previous_right == right
                &&& r matches Some((l, rr)) && l@ == reading_display(
                    left,
                    old(self).reference_level_db as int,
                    old(self).delta_mode_enabled,
                ) && rr@ == reading_display(
                    right,
                    old(self).reference_level_db as int,
                    old(self).delta_mode_enabled,
                )
            },
    {
        if left == self.previous_left && right == self.previous_right {
            return None;
        }
        self.previous_left = left;
        self.previous_right = right;
        let left_text = format_level_reading(left, self.reference_level_db, self.delta_mode_enabled);
        let right_text = format_level_reading(
            right,
            self.reference_level_db,
            self.delta_mode_enabled,
        );
        Some((left_text, right_text))
    }

    /// Applies a control event: delta mode toggles and reference-level
    /// changes reach the analysis state here; everything else is left to
    /// the stream machine.
    pub fn apply_control_event(&mut self, event: &EventType)
        ensures
            final(self).blocks_collected == old(self).blocks_collected,
            final(self).previous_left == old(self).previous_left,
            final(self).previous_right == old(self).previous_right,
            final(self).stream_alive == old(self).stream_alive,
            match event {
                EventType::MeterModeUpdate(enabled) => final(self).delta_mode_enabled == enabled
                    && final(self).reference_level_db == old(self).reference_level_db,
                EventType::ToneLevelUpdate(level) => final(self).reference_level_db == level
                    && final(self).delta_mode_enabled == old(self).delta_mode_enabled,
                _ => final(self).delta_mode_enabled == old(self).delta_mode_enabled && final(self).reference_level_db == old(self).reference_level_db,
            },
    {
        match event {
            EventType::MeterModeUpdate(enabled) => {
                self.delta_mode_enabled = *enabled;
            },
            EventType::ToneLevelUpdate(level) => {
                self.reference_level_db = *level;
            },
            _ => {},
        }
    }

    /// The fatal notification raised when the producer reports failure,
    /// carrying the producer's error text inside the ring-buffer error.
    pub fn fatal_notification(error_message: &String) -> (e: EventType)
        ensures
            e matches EventType::FatalError(s) && s@ == local_error_message(
                LocalError::LevelMeterReadRingBuffer(*error_message),
            ),
    {
        let wrapped = LocalError::LevelMeterReadRingBuffer(error_message.clone());
        EventType::FatalError(wrapped.message())
    }
}

/// One stream rebind: the device to open, and the resolved 0-based
/// sample-frame offsets to demultiplex.  The engine executing it must
/// pause and release the previous stream first, build the new one against
/// this request, and leave it paused.
#[derive(Clone, Debug, PartialEq)]
pub struct StreamRequest {
    pub device_name: String,
    pub left_index: usize,
    pub right_index: Option<usize>,
}

/// What the host collaborator must do after one control step.
#[derive(Clone, Debug, PartialEq)]
pub enum StreamCommand {
    /// Nothing: the event did not concern the stream.
    NoAction,
    /// Resume the current stream.
    Play,
    /// Pause the current stream.
    Pause,
    /// Replace the current stream as the request says.
    Rebuild(StreamRequest),
}

/// The stream-control state of the level meter: whether an input stream is
/// currently bound, and the device and channel labels it is bound to.
pub struct LevelMeter {
    pub input_stream_open: bool,
    pub current_input_device: CurrentDevice,
}

impl LevelMeter {
    /// A fresh meter: no input stream bound yet, no device stored.
    pub fn new() -> (r: Self)
        ensures
            !r.input_stream_open,
            r.current_input_device.name@.len() == 0,
            r.current_input_device.left_channel@.len() == 0,
            r.current_input_device.right_channel is None,
    {
        LevelMeter { input_stream_open: false, current_input_device: CurrentDevice::default() }
    }

    /// One step of the meter control loop.  Start and Stop act only on a
    /// bound stream.  A device update stores the new binding, resolves the
    /// channel labels and, when they resolve, asks for a rebind; a channel
    /// update does the same against the stored device.  A label that fails
    /// to parse is reported, and the stream is not replaced.
    pub fn handle_event(&mut self, event: &EventType) -> (r: Result<StreamCommand, LocalError>)
        ensures
            match event {
                EventType::Start => r == Ok::<StreamCommand, LocalError>(
                    if old(self).input_stream_open {
                        StreamCommand::Play
                    } else {
                        StreamCommand::NoAction
                    },
                ) && *final(self) == *old(self),
                EventType::Stop => r == Ok::<StreamCommand, LocalError>(
                    if old(self).input_stream_open {
                        StreamCommand::Pause
                    } else {
                        StreamCommand::NoAction
                    },
                ) && *final(self) == *old(self),
                EventType::MeterDeviceUpdate { name, left, right } => {
                    &&& final(self).current_input_device.name == name
                    &&& final(self).current_input_device.left_channel == left
                    &&& final(self).current_input_device.right_channel == right
                    &&& final(self).current_input_device.index == old(
                        self,
                    ).current_input_device.index
                    &&& rebind_result_matches(
                        r,
                        final(self).input_stream_open,
                        old(self).input_stream_open,
                        *name,
                        *left,
                        *right,
                    )
                },
                EventType::InputChannelUpdate { left, right } => {
                    &&& final(self).current_input_device.name == old(
                        self,
                    ).current_input_device.name
                    &&& final(self).current_input_device.left_channel == left
                    &&& final(self).current_input_device.right_channel == right
                    &&& final(self).current_input_device.index == old(
                        self,
                    ).current_input_device.index
                    &&& rebind_result_matches(
                        r,
                        final(self).input_stream_open,
                        old(self).input_stream_open,
                        old(self).current_input_device.name,
                        *left,
                        *right,
                    )
                },
                _ => r == Ok::<StreamCommand, LocalError>(StreamCommand::NoAction) && *final(self)
                    == *old(self),
            },
    {
        match event {
            EventType::Start => {
                if self.input_stream_open {
                    Ok(StreamCommand::Play)
                } else {
                    Ok(StreamCommand::NoAction)
                }
            },
            EventType::Stop => {
                if self.input_stream_open {
                    Ok(StreamCommand::Pause)
                } else {
                    Ok(StreamCommand::NoAction)
                }
            },
            EventType::MeterDeviceUpdate { name, left, right } => {
                self.current_input_device.name = name.clone();
                self.current_input_device.left_channel = left.clone();
                self.current_input_device.right_channel = crate::devices::clone_option_string(
                    right,
                );
                self.rebind_request()
            },
            EventType::InputChannelUpdate { left, right } => {
                self.current_input_device.left_channel = left.clone();
                self.current_input_device.right_channel = crate::devices::clone_option_string(
                    right,
                );
                self.rebind_request()
            },
            _ => Ok(StreamCommand::NoAction),
        }
    }

    /// Resolves the stored channel labels and asks for a rebind to the
    /// stored device.
    fn rebind_request(&mut self) -> (r: Result<StreamCommand, LocalError>)
        ensures
            final(self).current_input_device == old(self).current_input_device,
            rebind_result_matches(
                r,
                final(self).input_stream_open,
                old(self).input_stream_open,
                old(self).current_input_device.name,
                old(self).current_input_device.left_channel,
                old(self).current_input_device.right_channel,
            ),
    {
        match get_channel_indexes_from_channel_names(
            self.current_input_device.left_channel.as_str(),
            &self.current_input_device.right_channel,
        ) {
            Ok((left_index, right_index)) => {
                self.input_stream_open = true;
                Ok(
                    StreamCommand::Rebuild(
                        StreamRequest {
                            device_name: self.current_input_device.name.clone(),
                            left_index,
                            right_index,
                        },
                    ),
                )
            },
            Err(e) => Err(e),
        }
    }
}

/// What one rebind step returns: a rebuild request carrying the resolved
/// offsets and the stream marked bound, or the first parse failure wrapped
/// as a channel-index error with the binding flag unchanged.
pub open spec fn rebind_result_matches(
    r: Result<StreamCommand, LocalError>,
    open_after: bool,
    open_before: bool,
    device_name: String,
    left: String,
    right: Option<String>,
) -> bool {
    match crate::devices::resolution_outcome(left@, crate::devices::option_label_view(right)) {
        Ok((li, ri)) => r matches Ok(StreamCommand::Rebuild(req)) && req.device_name == device_name
            && req.left_index == li && req.right_index == ri && open_after,
        Err(e) => r matches Err(LocalError::ChannelIndex(m)) && m@
            == crate::digits::parse_error_message(e) && open_after == open_before,
    }
}

} // verus!
