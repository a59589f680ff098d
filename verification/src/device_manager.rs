//! The device manager: it keeps the last enumeration snapshots of both
//! directions and the devices the engines started on, and decides, each
//! polling round, which snapshots changed and must be announced.

use vstd::prelude::*;
use crate::devices::{device_list_eq, CurrentDevice, DeviceList};

verus! {

/// How long the polling loop sleeps between enumeration rounds, in
/// milliseconds.
pub const RUN_LOOP_SLEEP_DURATION_IN_MILLISECONDS: u64 = 300;

/// The bookkeeping state of the device manager.
pub struct DeviceManager {
    pub input_devices: DeviceList,
    pub output_devices: DeviceList,
    pub initial_input_device: CurrentDevice,
    pub current_output_device: CurrentDevice,
}

impl DeviceManager {
    /// Builds the manager from the first enumeration round: the two
    /// snapshots, and the default device of each direction.
    pub fn new(
        input_devices: DeviceList,
        output_devices: DeviceList,
        initial_input_device: CurrentDevice,
        current_output_device: CurrentDevice,
    ) -> (r: Self)
        ensures
            r.input_devices == input_devices,
            r.output_devices == output_devices,
            r.initial_input_device == initial_input_device,
            r.current_output_device == current_output_device,
    {
        DeviceManager { input_devices, output_devices, initial_input_device, current_output_device }
    }

    /// One polling round: compares the fresh snapshots with the stored
    /// ones and says, per direction, whether the device list changed and
    /// must be announced.  Changed snapshots replace the stored ones.
    pub fn update_device_lists(&mut self, input: DeviceList, output: DeviceList) -> (r: (
        bool,
        bool,
    ))
        ensures
            r.0 == !(input.devices.deep_view() == old(self).input_devices.devices.deep_view()
                && input.channels.deep_view() == old(self).input_devices.channels.deep_view()),
            r.1 == !(output.devices.deep_view() == old(self).output_devices.devices.deep_view()
                && output.channels.deep_view() == old(self).output_devices.channels.deep_view()),
            final(self).input_devices == (if r.0 {
                input
            } else {
                old(self).input_devices
            }),
            final(self).output_devices == (if r.1 {
                output
            } else {
                old(self).output_devices
            }),
            final(self).initial_input_device == old(self).initial_input_device,
            final(self).current_output_device == old(self).current_output_device,
    {
        let input_changed = !device_list_eq(&input, &self.input_devices);
        let output_changed = !device_list_eq(&output, &self.output_devices);
        if input_changed {
            self.input_devices = input;
        }
        if output_changed {
            self.output_devices = output;
        }
        (input_changed, output_changed)
    }

    /// The stored input-device snapshot.
    pub fn get_input_devices(&self) -> (r: DeviceList)
        ensures
            crate::devices::device_list_like(r, self.input_devices),
    {
        self.input_devices.clone()
    }

    /// The stored output-device snapshot.
    pub fn get_output_devices(&self) -> (r: DeviceList)
        ensures
            crate::devices::device_list_like(r, self.output_devices),
    {
        self.output_devices.clone()
    }

    /// The input device the meter started on.
    pub fn get_current_input_device(&self) -> (r: CurrentDevice)
        ensures
            r == self.initial_input_device,
    {
        self.initial_input_device.clone()
    }

    /// The output device the tone generator started on.
    pub fn get_current_output_device(&self) -> (r: CurrentDevice)
        ensures
            r == self.current_output_device,
    {
        self.current_output_device.clone()
    }
}

} // verus!
