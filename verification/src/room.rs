//! A room of a smart house and the devices in it.

use crate::device::Device;
use crate::keyed::{cut, distinct, holds, keys_of, picked, put, targets, wanted_keys, Keyed};
use crate::text::{listing, listing_text, texts};
use vstd::prelude::*;

verus! {

/// Why a room could not do what was asked.
#[derive(Debug, PartialEq, Eq)]
pub enum RoomError {
    /// The device of this name could not be added.
    AddError {
        /// The name of the device.
        name: String,
    },
    /// The device of this name could not be removed: the room has none.
    RemoveError {
        /// The name of the device.
        name: String,
    },
}

/// The texts of the devices of a list.
pub open spec fn device_texts(devices: Seq<Device>) -> Seq<Seq<char>> {
    Seq::new(devices.len(), |i: int| devices[i].spec_text())
}

/// The heading over the devices of a room.
pub open spec fn devices_heading() -> Seq<char> {
    ",\nDevices:\n[\n"@
}

/// A room: its name, and its devices by name.
#[derive(Debug)]
pub struct SmartRoom {
    name: String,
    devices: Keyed<Device>,
}

impl SmartRoom {
    /// The name of the room.
    pub closed spec fn spec_name(&self) -> Seq<char> {
        self.name@
    }

    /// The devices by name, in the order in which the names came.
    pub closed spec fn spec_devices(&self) -> Seq<(Seq<char>, Device)> {
        self.devices@
    }

    /// No name occurs twice.
    pub open spec fn wf(&self) -> bool {
        distinct(self.spec_devices())
    }

    /// The report on the devices that `wanted` names, or on all.
    pub open spec fn spec_report(&self, wanted: Option<Seq<Seq<char>>>) -> Seq<char> {
        listing(
            self.spec_name(),
            devices_heading(),
            device_texts(picked(self.spec_devices(), wanted)),
        )
    }

    /// A room without devices.
    pub fn new(name: String) -> (room: SmartRoom)
        ensures
            room.wf(),
            room.spec_name() == name@,
            room.spec_devices() == Seq::<(Seq<char>, Device)>::empty(),
    {
        SmartRoom { name, devices: Keyed::new() }
    }

    /// The name of the room.
    pub fn name(&self) -> (name: &str)
        ensures
            name@ == self.spec_name(),
    {
        self.name.as_str()
    }

    /// The devices by name.
    pub fn devices(&self) -> (devices: &Keyed<Device>)
        ensures
            devices@ == self.spec_devices(),
    {
        &self.devices
    }

    /// The names of the devices, in order.
    pub fn get_devices_name(&self) -> (names: Vec<String>)
        ensures
            texts(names@) == keys_of(self.spec_devices()),
    {
        self.devices.keys()
    }

    /// The devices that `devices` names, in the order of the room; all of
    /// them where it names nothing.
    pub fn get(&self, devices: Option<Vec<String>>) -> (found: Vec<&Device>)
        ensures
            targets(found@) == picked(self.spec_devices(), wanted_keys(devices)),
    {
        self.devices.pick(&devices)
    }

    /// Puts `device` into the room, under `name` or else under its own
    /// name, in the place of a device that was under that name. Gives the
    /// name under which the device now is.
    pub fn add_device(&mut self, device: Device, name: Option<String>) -> (added: Result<
        String,
        RoomError,
    >)
        requires
            old(self).wf(),
        ensures
            final(self).wf(),
            final(self).spec_name() == old(self).spec_name(),
            added matches Ok(key) && key@ == (match name {
                Some(n) => n@,
                None => device.name@,
            }) && final(self).spec_devices() == put(old(self).spec_devices(), key@, device),
    {
        let key = match name {
            Some(n) => n,
            None => device.name.clone(),
        };
        let shown = key.clone();
        let _ = self.devices.insert(key, device);
        Ok(shown)
    }

    /// Takes the device under `name` out of the room. Fails with
    /// `RemoveError` exactly when the room has no device under that name.
    pub fn remove_device(&mut self, name: String) -> (removed: Result<String, RoomError>)
        requires
            old(self).wf(),
        ensures
            final(self).wf(),
            final(self).spec_name() == old(self).spec_name(),
            final(self).spec_devices() == cut(old(self).spec_devices(), name@),
            removed is Ok <==> holds(old(self).spec_devices(), name@),
            removed matches Ok(n) ==> n@ == name@,
            removed matches Err(e) ==> (e matches RoomError::RemoveError { name: n } && n@
                == name@),
    {
        match self.devices.remove(&name) {
            Some(_) => Ok(name),
            None => Err(RoomError::RemoveError { name }),
        }
    }

    /// The report on the devices that `devices` names, or on all.
    pub fn report(&self, devices: Option<Vec<String>>) -> (text: String)
        ensures
            text@ == self.spec_report(wanted_keys(devices)),
    {
        let found = self.devices.pick(&devices);
        let mut entries: Vec<String> = Vec::new();
        let mut i: usize = 0;
        while i < found.len()
            invariant
                i <= found@.len(),
                entries@.len() == i,
                forall|j: int| 0 <= j < i ==> (#[trigger] entries@[j])@ == found@[j].spec_text(),
            decreases found@.len() - i,
        {
            entries.push(found[i].to_string());
            i += 1;
        }
        proof {
            assert(texts(entries@) =~= device_texts(targets(found@)));
        }
        listing_text(self.name.as_str(), ",\nDevices:\n[\n", &entries)
    }
}

} // verus!
