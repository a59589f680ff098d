//! Devices and channels as the instrument sees them: enumerated device
//! snapshots, the current selection, and the resolution of 1-based channel
//! labels into 0-based sample-frame offsets.

use vstd::prelude::*;
use vstd::string::*;
use crate::digits::{
    all_digits, dec_rep, digits_value, lemma_dec_rep_value, lemma_first_non_digit, parse_usize,
    parse_usize_spec, parse_error_message, parse_error_message_string, unsigned_body,
};
use crate::errors::LocalError;

verus! {

/// One enumeration snapshot of the audio devices of one direction: the
/// device names, and for each device its channel labels in order.
#[derive(Debug, PartialEq)]
pub struct DeviceList {
    pub devices: Vec<String>,
    pub channels: Vec<Vec<String>>,
}

/// The device and channel pair one engine is currently bound to.  `index`
/// is the position of the device in the last enumeration snapshot,
/// `left_channel` and `right_channel` are 1-based channel labels; an absent
/// right channel means mono routing.
#[derive(Debug, PartialEq)]
pub struct CurrentDevice {
    pub index: i32,
    pub name: String,
    pub left_channel: String,
    pub right_channel: Option<String>,
}

impl Default for DeviceList {
    fn default() -> (r: Self)
        ensures
            r.devices@.len() == 0,
            r.channels@.len() == 0,
    {
        DeviceList { devices: Vec::new(), channels: Vec::new() }
    }
}

impl Default for CurrentDevice {
    fn default() -> (r: Self)
        ensures
            r.index == 0,
            r.name@.len() == 0,
            r.left_channel@.len() == 0,
            r.right_channel is None,
    {
        CurrentDevice {
            index: 0,
            name: String::new(),
            left_channel: String::new(),
            right_channel: None,
        }
    }
}

/// Whether two device snapshots carry the same device names (as values)
/// and the same channel labels (as character sequences).
pub open spec fn device_list_like(a: DeviceList, b: DeviceList) -> bool {
    &&& a.devices@ == b.devices@
    &&& a.channels@.len() == b.channels@.len()
    &&& forall|i: int|
        0 <= i < b.channels@.len() ==> #[trigger] a.channels@[i]@ == b.channels@[i]@
}

impl Clone for CurrentDevice {
    /// A clone is equal to the original selection.
    fn clone(&self) -> (r: Self)
        ensures
            r == *self,
    {
        CurrentDevice {
            index: self.index,
            name: self.name.clone(),
            left_channel: self.left_channel.clone(),
            right_channel: clone_option_string(&self.right_channel),
        }
    }
}

impl Clone for DeviceList {
    /// A clone carries the same device names and channel labels.
    fn clone(&self) -> (r: Self)
        ensures
            device_list_like(r, *self),
    {
        let devices = clone_string_vec(&self.devices);
        let mut channels: Vec<Vec<String>> = Vec::new();
        let n = self.channels.len();
        let mut i: usize = 0;
        while i < n
            invariant
                i <= n,
                n == self.channels@.len(),
                channels@.len() == i,
                forall|j: int| 0 <= j < i ==> #[trigger] channels@[j]@ == self.channels@[j]@,
            decreases n - i,
        {
            channels.push(clone_string_vec(&self.channels[i]));
            i = i + 1;
        }
        DeviceList { devices, channels }
    }
}

/// Copies an optional channel label.
pub fn clone_option_string(o: &Option<String>) -> (r: Option<String>)
    ensures
        r == *o,
{
    match o {
        Some(s) => Some(s.clone()),
        None => None,
    }
}

/// Copies a vector of labels or names; the copy holds the same strings.
pub fn clone_string_vec(v: &Vec<String>) -> (r: Vec<String>)
    ensures
        r@ == v@,
{
    let mut r: Vec<String> = Vec::new();
    let n = v.len();
    let mut i: usize = 0;
    while i < n
        invariant
            i <= n,
            n == v@.len(),
            r@.len() == i,
            forall|j: int| 0 <= j < i ==> #[trigger] r@[j] == v@[j],
        decreases n - i,
    {
        r.push(v[i].clone());
        i = i + 1;
    }
    proof {
        assert(r@ =~= v@);
    }
    r
}

/// A channel list as enumeration produces it: the labels "1" up to the
/// channel count, in order.
pub open spec fn canonical_channel_labels(channels: Seq<Seq<char>>) -> bool {
    forall|i: int| 0 <= i < channels.len() ==> #[trigger] channels[i] == dec_rep((i + 1) as nat)
}

/// The 0-based index a parsed 1-based channel label resolves to: one less
/// than the parsed value, saturating at zero.
pub open spec fn resolved_index(v: usize) -> usize {
    if v == 0 {
        0
    } else {
        (v - 1) as usize
    }
}

/// What resolving one channel label returns: the saturating 0-based index,
/// or the parse failure wrapped as a channel-index error.
pub open spec fn channel_index_result_matches(
    r: Result<usize, LocalError>,
    s: Seq<char>,
) -> bool {
    match parse_usize_spec(s) {
        Ok(v) => r == Ok::<usize, LocalError>(resolved_index(v)),
        Err(e) => r matches Err(LocalError::ChannelIndex(m)) && m@ == parse_error_message(e),
    }
}

/// Resolves one 1-based channel label to a 0-based sample-frame offset.
/// A label of "0" resolves to offset 0 rather than failing.
pub fn get_channel_index_from_name(channel: &str) -> (r: Result<usize, LocalError>)
    ensures
        channel_index_result_matches(r, channel@),
{
    match parse_usize(channel) {
        Ok(v) => Ok(if v == 0 {
            0
        } else {
            v - 1
        }),
        Err(e) => Err(LocalError::ChannelIndex(parse_error_message_string(e))),
    }
}

/// The view of an optional right-channel label.
pub open spec fn option_label_view(o: Option<String>) -> Option<Seq<char>> {
    match o {
        Some(s) => Some(s@),
        None => None,
    }
}

/// The outcome of resolving a label pair, as values: both labels resolved,
/// the left one first, or the first parse failure from left to right.
pub open spec fn resolution_outcome(left: Seq<char>, right: Option<Seq<char>>) -> Result<
    (usize, Option<usize>),
    crate::digits::ParseNumberError,
> {
    match parse_usize_spec(left) {
        Err(e) => Err(e),
        Ok(lv) => match right {
            None => Ok((resolved_index(lv), None)),
            Some(rs) => match parse_usize_spec(rs) {
                Err(e) => Err(e),
                Ok(rv) => Ok((resolved_index(lv), Some(resolved_index(rv)))),
            },
        },
    }
}

/// What resolving a label pair returns: the resolved offsets, or the first
/// parse failure wrapped as a channel-index error.
pub open spec fn channel_indexes_result_matches(
    r: Result<(usize, Option<usize>), LocalError>,
    left: Seq<char>,
    right: Option<Seq<char>>,
) -> bool {
    match resolution_outcome(left, right) {
        Ok(p) => r == Ok::<(usize, Option<usize>), LocalError>(p),
        Err(e) => r matches Err(LocalError::ChannelIndex(m)) && m@ == parse_error_message(e),
    }
}

/// Resolves a left/right channel label pair to 0-based sample-frame
/// offsets; an absent right label means mono routing.
pub fn get_channel_indexes_from_channel_names(
    left_channel: &str,
    right_channel: &Option<String>,
) -> (r: Result<(usize, Option<usize>), LocalError>)
    ensures
        channel_indexes_result_matches(
            r,
            left_channel@,
            match right_channel {
                Some(rc) => Some(rc@),
                None => None,
            },
        ),
{
    let left_index = match get_channel_index_from_name(left_channel) {
        Ok(v) => v,
        Err(e) => {
            return Err(e);
        },
    };
    match right_channel {
        None => Ok((left_index, None)),
        Some(rc) => match get_channel_index_from_name(rc.as_str()) {
            Ok(v) => Ok((left_index, Some(v))),
            Err(e) => Err(e),
        },
    }
}

/// Every channel label naming a valid 1-based channel resolves to the
/// 0-based offset one below it, and a missing right label stays missing:
/// for each label value from 1 up to the largest channel count a device
/// reports, resolution succeeds with that value less one on the left and
/// nothing on the right.
pub proof fn lemma_valid_label_resolves(n: nat)
    requires
        1 <= n <= 64,
    ensures
        resolution_outcome(dec_rep(n), None) == Ok::<
            (usize, Option<usize>),
            crate::digits::ParseNumberError,
        >(((n - 1) as usize, None)),
{
    lemma_valid_label_parses(n);
}

/// The decimal rendering of any value that fits a `usize` parses back to
/// that value.
pub proof fn lemma_valid_label_parses(n: nat)
    requires
        n <= usize::MAX,
    ensures
        parse_usize_spec(dec_rep(n)) == Ok::<usize, crate::digits::ParseNumberError>(n as usize),
{
    let s = dec_rep(n);
    lemma_dec_rep_value(n);
    assert(s[0] != '+') by {
        assert(crate::digits::is_digit_char(s[0]));
    }
    assert(unsigned_body(s) == s);
    lemma_first_non_digit(s);
    assert(s.take(s.len() as int) =~= s);
}

/// The channel labels of a device with `count` channels: "1" up to the
/// rendering of `count`.
pub fn channel_labels(count: u16) -> (r: Vec<String>)
    ensures
        r@.len() == count as nat,
        canonical_channel_labels(r@.map_values(|s: String| s@)),
{
    let mut labels: Vec<String> = Vec::new();
    let mut i: u16 = 0;
    while i < count
        invariant
            i <= count,
            labels@.len() == i as nat,
            forall|j: int| 0 <= j < i ==> #[trigger] labels@[j]@ == dec_rep((j + 1) as nat),
        decreases count - i,
    {
        let label = crate::digits::u64_to_string((i as u64) + 1);
        labels.push(label);
        i = i + 1;
    }
    proof {
        let mapped = labels@.map_values(|s: String| s@);
        assert forall|j: int| 0 <= j < mapped.len() implies #[trigger] mapped[j] == dec_rep(
            (j + 1) as nat,
        ) by {
            assert(mapped[j] == labels@[j]@);
        }
    }
    labels
}

/// Looks a device name up in an enumeration snapshot; the result is the
/// position of the first matching name, or 0, the first device, when the
/// name is absent.
pub fn get_output_device_data_current_index(device_list: &Vec<String>, device_name: &str) -> (r:
    i32)
    requires
        device_list@.len() <= i32::MAX,
    ensures
        ({
            let names = device_list@.map_values(|s: String| s@);
            &&& 0 <= r <= device_list@.len()
            &&& r < device_list@.len() ==> (names[r as int] == device_name@ || (r == 0 && forall|
                i: int,
            | 0 <= i < names.len() ==> names[i] != device_name@))
            &&& (exists|i: int| 0 <= i < names.len() && names[i] == device_name@) ==> (
            names[r as int] == device_name@ && forall|j: int|
                0 <= j < r ==> names[j] != device_name@)
            &&& (forall|i: int| 0 <= i < names.len() ==> names[i] != device_name@) ==> r == 0
        }),
{
    let ghost names = device_list@.map_values(|s: String| s@);
    let name_string = String::from_str(device_name);
    let n = device_list.len();
    let mut i: usize = 0;
    while i < n
        invariant
            i <= n,
            n == device_list@.len() <= i32::MAX,
            names == device_list@.map_values(|s: String| s@),
            name_string@ == device_name@,
            forall|j: int| 0 <= j < i ==> names[j] != device_name@,
        decreases n - i,
    {
        if device_list[i].eq(&name_string) {
            proof {
                assert(names[i as int] == device_name@);
            }
            return i as i32;
        }
        proof {
            assert(names[i as int] == device_list@[i as int]@);
        }
        i = i + 1;
    }
    0
}

/// Derives the current-device record an engine starts from: the device's
/// name and position, its first channel label as the left channel, and its
/// second label as the right channel when the device has more than one.
pub fn get_default_device_data(
    name: String,
    index: i32,
    channels: &Vec<String>,
) -> (r: CurrentDevice)
    requires
        channels@.len() >= 1,
    ensures
        r.index == index,
        r.name == name,
        r.left_channel == channels@[0],
        r.right_channel == (if channels@.len() > 1 {
            Some(channels@[1])
        } else {
            None::<String>
        }),
{
    let left_channel = channels[0].clone();
    let right_channel = if channels.len() > 1 {
        Some(channels[1].clone())
    } else {
        None
    };
    CurrentDevice { index, name, left_channel, right_channel }
}

/// Compares two device snapshots by value, as the polling refresh does.
pub fn device_list_eq(a: &DeviceList, b: &DeviceList) -> (r: bool)
    ensures
        r == (a.devices.deep_view() == b.devices.deep_view() && a.channels.deep_view()
            == b.channels.deep_view()),
{
    let names_equal = string_vec_eq(&a.devices, &b.devices);
    if !names_equal {
        proof {
            assert(a.devices.deep_view() != b.devices.deep_view());
        }
        return false;
    }
    if a.channels.len() != b.channels.len() {
        proof {
            assert(a.channels.deep_view().len() != b.channels.deep_view().len());
        }
        return false;
    }
    let n = a.channels.len();
    let mut i: usize = 0;
    while i < n
        invariant
            i <= n,
            n == a.channels@.len() == b.channels@.len(),
            a.devices.deep_view() == b.devices.deep_view(),
            forall|j: int|
                0 <= j < i ==> #[trigger] a.channels.deep_view()[j] == b.channels.deep_view()[j],
        decreases n - i,
    {
        if !string_vec_eq(&a.channels[i], &b.channels[i]) {
            proof {
                assert(a.channels.deep_view()[i as int] == a.channels@[i as int].deep_view());
                assert(b.channels.deep_view()[i as int] == b.channels@[i as int].deep_view());
            }
            return false;
        }
        proof {
            assert(a.channels.deep_view()[i as int] == a.channels@[i as int].deep_view());
            assert(b.channels.deep_view()[i as int] == b.channels@[i as int].deep_view());
        }
        i = i + 1;
    }
    proof {
        assert(a.channels.deep_view() =~= b.channels.deep_view());
    }
    true
}

/// Compares two label or name vectors by value.
pub fn string_vec_eq(a: &Vec<String>, b: &Vec<String>) -> (r: bool)
    ensures
        r == (a.deep_view() == b.deep_view()),
{
    if a.len() != b.len() {
        proof {
            assert(a.deep_view().len() != b.deep_view().len());
        }
        return false;
    }
    let n = a.len();
    let mut i: usize = 0;
    while i < n
        invariant
            i <= n,
            n == a@.len() == b@.len(),
            forall|j: int| 0 <= j < i ==> #[trigger] a.deep_view()[j] == b.deep_view()[j],
        decreases n - i,
    {
        if !a[i].eq(&b[i]) {
            proof {
                assert(a.deep_view()[i as int] == a@[i as int]@);
                assert(b.deep_view()[i as int] == b@[i as int]@);
            }
            return false;
        }
        proof {
            assert(a.deep_view()[i as int] == a@[i as int]@);
            assert(b.deep_view()[i as int] == b@[i as int]@);
        }
        i = i + 1;
    }
    proof {
        assert(a.deep_view() =~= b.deep_view());
    }
    true
}

} // verus!
