//! The entry points that a smart-house library offers across the boundary,
//! on owned buffers in place of addresses: what the bridge calls.

use crate::buffer::{
    all_marshalable, can_pack, contents, copy_bytes, is_terminated, pack, release, spec_pack,
    MarshaledBuffer,
};
use crate::codec::{can_encode, decode, encode, is_c_string, is_marshalable, spec_encode};
use crate::device::{Device, DeviceConfig, SmartOutlet};
use crate::house::{is_empty_room, is_room_with, SmartHouse};
use crate::keyed::{cut, holds, keys_of, place, put};
use crate::room::SmartRoom;
use vstd::pervasive::unreached;
use vstd::prelude::*;
use vstd::utf8::*;

verus! {

/// The object behind a handle: one smart house.
#[derive(Debug)]
pub struct SmartHouseLib {
    /// The house.
    pub smarthouse: SmartHouse,
}

/// A buffer that holds text: NUL-terminated, and valid UTF-8 before that.
pub open spec fn is_text(buffer: Seq<u8>) -> bool {
    is_c_string(buffer) && valid_utf8(buffer.drop_last())
}

/// The text that a buffer holds.
pub open spec fn text_of(buffer: Seq<u8>) -> Seq<char> {
    decode_utf8(buffer.drop_last())
}

fn take_text(buffer: Vec<u8>) -> (text: String)
    requires
        is_text(buffer@),
    ensures
        text@ == text_of(buffer@),
{
    match decode(buffer) {
        Ok(text) => text,
        Err(_) => unreached(),
    }
}

/// Whether `buffer` holds text.
pub fn holds_text(buffer: &Vec<u8>) -> (ok: bool)
    ensures
        ok == is_text(buffer@),
{
    if !is_terminated(buffer) {
        return false;
    }
    let copy = copy_bytes(buffer);
    decode(copy).is_ok()
}

/// Collects buffers into an array with its count, for the caller to own.
pub fn save2buf(c_strings: Vec<Vec<u8>>) -> (buffer: MarshaledBuffer)
    requires
        forall|i: int| 0 <= i < c_strings@.len() ==> is_c_string(#[trigger] c_strings@[i]@),
    ensures
        buffer.wf(),
        buffer@ == contents(c_strings@),
{
    match MarshaledBuffer::from_entries(c_strings) {
        Some(buffer) => buffer,
        None => unreached(),
    }
}

/// Makes a house called by the text of `name`, without rooms, and hands it
/// over.
pub fn new(name: Vec<u8>) -> (smarthouselib: Box<SmartHouseLib>)
    requires
        is_text(name@),
    ensures
        smarthouselib.smarthouse.wf(),
        smarthouselib.smarthouse.spec_name() == text_of(name@),
        smarthouselib.smarthouse.spec_rooms() == Seq::<(Seq<char>, SmartRoom)>::empty(),
{
    let name_str = take_text(name);
    let smarthouse = SmartHouse::new(name_str);
    Box::new(SmartHouseLib { smarthouse })
}

/// Takes a house back and ends it; a null handle is nothing to end. Says
/// whether there was a house.
pub fn destroy(smarthouse: Option<Box<SmartHouseLib>>) -> (ended: bool)
    ensures
        ended == smarthouse is Some,
{
    match smarthouse {
        Some(_) => true,
        None => false,
    }
}

/// Puts an empty room under the text of `name`.
pub fn add_room(smarthouselib: &mut SmartHouseLib, name: Vec<u8>)
    requires
        old(smarthouselib).smarthouse.wf(),
        is_text(name@),
    ensures
        final(smarthouselib).smarthouse.wf(),
        final(smarthouselib).smarthouse.spec_name() == old(smarthouselib).smarthouse.spec_name(),
        exists|room: SmartRoom|
            is_empty_room(room, text_of(name@)) && final(smarthouselib).smarthouse.spec_rooms()
                == put(old(smarthouselib).smarthouse.spec_rooms(), text_of(name@), room),
{
    let name_str = take_text(name);
    let _ = smarthouselib.smarthouse.add_room(name_str);
}

/// Takes the room under the text of `name` out; where there is none,
/// nothing happens.
pub fn remove_room(smarthouselib: &mut SmartHouseLib, name: Vec<u8>)
    requires
        old(smarthouselib).smarthouse.wf(),
        is_text(name@),
    ensures
        final(smarthouselib).smarthouse.wf(),
        final(smarthouselib).smarthouse.spec_name() == old(smarthouselib).smarthouse.spec_name(),
        final(smarthouselib).smarthouse.spec_rooms() == cut(
            old(smarthouselib).smarthouse.spec_rooms(),
            text_of(name@),
        ),
{
    let name_str = take_text(name);
    let _ = smarthouselib.smarthouse.remove_room(name_str);
}

/// The names of the rooms, in order, as an array for the caller to own and
/// to give back through `free_string_list`. Gives nothing where a name
/// cannot cross the boundary.
pub fn get_list_rooms_name(smarthouselib: &SmartHouseLib) -> (out: Option<MarshaledBuffer>)
    ensures
        out is Some <==> all_marshalable(
            keys_of(smarthouselib.smarthouse.spec_rooms()),
        ),
        out matches Some(buffer) ==> buffer.wf() && buffer@ == spec_pack(
            keys_of(smarthouselib.smarthouse.spec_rooms()),
        ),
{
    let names = smarthouselib.smarthouse.get_rooms();
    if can_pack(&names) {
        Some(pack(&names))
    } else {
        None
    }
}

/// Takes an array back and releases it with every element.
pub fn free_string_list(buffer: MarshaledBuffer) -> (released: usize)
    requires
        buffer.wf(),
    ensures
        released == buffer@.len(),
{
    release(buffer)
}

/// Takes the device under the text of `device_name` out of the room under
/// the text of `room_name`; where there is no such room or device, nothing
/// happens.
pub fn remove_device(smarthouselib: &mut SmartHouseLib, room_name: Vec<u8>, device_name: Vec<u8>)
    requires
        old(smarthouselib).smarthouse.wf(),
        is_text(room_name@),
        is_text(device_name@),
    ensures
        final(smarthouselib).smarthouse.wf(),
        final(smarthouselib).smarthouse.spec_name() == old(smarthouselib).smarthouse.spec_name(),
        !holds(old(smarthouselib).smarthouse.spec_rooms(), text_of(room_name@)) ==> final(smarthouselib).smarthouse.spec_rooms()
            == old(smarthouselib).smarthouse.spec_rooms(),
        holds(old(smarthouselib).smarthouse.spec_rooms(), text_of(room_name@)) ==> {
            let before = old(smarthouselib).smarthouse.spec_rooms();
            let p = place(before, text_of(room_name@));
            exists|after: SmartRoom|
                is_room_with(
                    after,
                    before[p].1,
                    cut(before[p].1.spec_devices(), text_of(device_name@)),
                ) && final(smarthouselib).smarthouse.spec_rooms() == before.update(
                    p,
                    (text_of(room_name@), after),
                )
        },
{
    let room_name_str = take_text(room_name);
    let device_name_str = take_text(device_name);
    let _ = smarthouselib.smarthouse.remove_device(room_name_str, device_name_str);
}

/// The names of the devices of the room under the text of `room_name`, in
/// order, as an array for the caller to own and to give back through
/// `free_string_list`. Gives nothing where there is no such room, or where
/// a name cannot cross the boundary.
pub fn get_list_devices_name(smarthouselib: &SmartHouseLib, room_name: Vec<u8>) -> (out: Option<
    MarshaledBuffer,
>)
    requires
        smarthouselib.smarthouse.wf(),
        is_text(room_name@),
    ensures
        out is Some <==> {
            let rooms = smarthouselib.smarthouse.spec_rooms();
            holds(rooms, text_of(room_name@)) && all_marshalable(
                keys_of(rooms[place(rooms, text_of(room_name@))].1.spec_devices()),
            )
        },
        out matches Some(buffer) ==> {
            let rooms = smarthouselib.smarthouse.spec_rooms();
            buffer.wf() && buffer@ == spec_pack(
                keys_of(rooms[place(rooms, text_of(room_name@))].1.spec_devices()),
            )
        },
{
    let room_name_str = take_text(room_name);
    match smarthouselib.smarthouse.devices(room_name_str) {
        Ok(names) => {
            if can_pack(&names) {
                Some(pack(&names))
            } else {
                None
            }
        },
        Err(_) => None,
    }
}

/// The report on the whole house, as a buffer for the caller to own. Gives
/// nothing where the text cannot cross the boundary.
pub fn report(smarthouselib: &SmartHouseLib) -> (out: Option<Vec<u8>>)
    ensures
        out is Some <==> is_marshalable(smarthouselib.smarthouse.spec_report(None)),
        out matches Some(buffer) ==> buffer@ == spec_encode(
            smarthouselib.smarthouse.spec_report(None),
        ) && is_c_string(buffer@),
{
    let text = smarthouselib.smarthouse.report(None);
    if can_encode(text.as_str()) {
        Some(encode(text.as_str()))
    } else {
        None
    }
}

/// Puts an outlet, switched off and drawing no power, into the room under
/// the text of `room_name`: its name is the text of `device_name`, its
/// description the text of `device_description`. Where there is no such
/// room, nothing happens.
pub fn add_test_device_outlet(
    smarthouselib: &mut SmartHouseLib,
    room_name: Vec<u8>,
    device_name: Vec<u8>,
    device_description: Vec<u8>,
)
    requires
        old(smarthouselib).smarthouse.wf(),
        is_text(room_name@),
        is_text(device_name@),
        is_text(device_description@),
    ensures
        final(smarthouselib).smarthouse.wf(),
        final(smarthouselib).smarthouse.spec_name() == old(smarthouselib).smarthouse.spec_name(),
        !holds(old(smarthouselib).smarthouse.spec_rooms(), text_of(room_name@)) ==> final(smarthouselib).smarthouse.spec_rooms()
            == old(smarthouselib).smarthouse.spec_rooms(),
        holds(old(smarthouselib).smarthouse.spec_rooms(), text_of(room_name@)) ==> {
            let before = old(smarthouselib).smarthouse.spec_rooms();
            let p = place(before, text_of(room_name@));
            exists|after: SmartRoom, device: Device|
                is_test_outlet(device, text_of(device_name@), text_of(device_description@))
                    && is_room_with(
                    after,
                    before[p].1,
                    put(before[p].1.spec_devices(), text_of(device_name@), device),
                ) && final(smarthouselib).smarthouse.spec_rooms() == before.update(
                    p,
                    (text_of(room_name@), after),
                )
        },
{
    let room_name_str = take_text(room_name);
    let device_name_str = take_text(device_name);
    let device_description_str = take_text(device_description);
    let device = Device::new(
        device_name_str,
        DeviceConfig::Outlet(SmartOutlet::new(device_description_str, None)),
        None,
    );
    proof {
        assert(is_test_outlet(device, text_of(device_name@), text_of(device_description@)));
    }
    let _ = smarthouselib.smarthouse.add_device(room_name_str, device);
}

/// An outlet as `add_test_device_outlet` makes it: switched off, drawing no
/// power.
pub open spec fn is_test_outlet(device: Device, name: Seq<char>, description: Seq<char>) -> bool {
    &&& device.name@ == name
    &&& !device.on
    &&& device.config matches DeviceConfig::Outlet(outlet) && outlet.description@ == description
        && outlet.power == 0
}

} // verus!
