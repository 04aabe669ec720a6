//! A smart house: rooms by name, and in them devices by name.

use crate::device::Device;
use crate::ident::{fresh_id, is_random_id};
use crate::keyed::{
    cut, distinct, holds, keys_of, lemma_cut, lemma_put, picked, place, put, targets,
    wanted_keys, Keyed,
};
use crate::room::{RoomError, SmartRoom};
use crate::text::{listing, listing_text, texts};
use vstd::prelude::*;

verus! {

/// Why a house could not do what was asked.
#[derive(Debug, PartialEq, Eq)]
pub enum SmartHouseError {
    /// The room of this name could not be added.
    AddRoomError {
        /// The name of the room.
        name: String,
    },
    /// The room of this name could not be removed: the house has none.
    RemoveRoomError {
        /// The name of the room.
        name: String,
    },
    /// The house has no room of this name.
    GetRoomError {
        /// The name of the room.
        name: String,
    },
    /// The room could not do what was asked.
    RoomError(RoomError),
}

/// The reports of the rooms of a list, each on all its devices.
pub open spec fn room_reports(rooms: Seq<SmartRoom>) -> Seq<Seq<char>> {
    Seq::new(rooms.len(), |i: int| rooms[i].spec_report(None))
}

/// The heading over the rooms of a house.
pub open spec fn rooms_heading() -> Seq<char> {
    ",\nRooms:\n[\n"@
}

/// A room that was just made, without devices.
pub open spec fn is_empty_room(room: SmartRoom, name: Seq<char>) -> bool {
    &&& room.wf()
    &&& room.spec_name() == name
    &&& room.spec_devices() == Seq::<(Seq<char>, Device)>::empty()
}

/// A room that is `before` but for its devices, which are `devices`.
pub open spec fn is_room_with(
    room: SmartRoom,
    before: SmartRoom,
    devices: Seq<(Seq<char>, Device)>,
) -> bool {
    &&& room.wf()
    &&& room.spec_name() == before.spec_name()
    &&& room.spec_devices() == devices
}

/// A smart house.
#[derive(Debug)]
pub struct SmartHouse {
    id: u128,
    name: String,
    rooms: Keyed<SmartRoom>,
}

impl SmartHouse {
    /// The number of the identifier.
    pub closed spec fn spec_id(&self) -> u128 {
        self.id
    }

    /// The name of the house.
    pub closed spec fn spec_name(&self) -> Seq<char> {
        self.name@
    }

    /// The rooms by name, in the order in which the names came.
    pub closed spec fn spec_rooms(&self) -> Seq<(Seq<char>, SmartRoom)> {
        self.rooms@
    }

    /// No name of a room occurs twice, and every room is sound.
    pub open spec fn wf(&self) -> bool {
        &&& distinct(self.spec_rooms())
        &&& forall|i: int| 0 <= i < self.spec_rooms().len() ==> (#[trigger] self.spec_rooms()[i]).1.wf()
    }

    /// The report on the rooms that `wanted` names, or on all.
    pub open spec fn spec_report(&self, wanted: Option<Seq<Seq<char>>>) -> Seq<char> {
        listing(self.spec_name(), rooms_heading(), room_reports(picked(self.spec_rooms(), wanted)))
    }

    /// A house without rooms, with a fresh identifier.
    pub fn new(name: String) -> (house: SmartHouse)
        ensures
            house.wf(),
            house.spec_name() == name@,
            house.spec_rooms() == Seq::<(Seq<char>, SmartRoom)>::empty(),
            is_random_id(house.spec_id()),
    {
        SmartHouse { id: fresh_id(), name, rooms: Keyed::new() }
    }

    /// The number of the identifier.
    pub fn id(&self) -> (id: &u128)
        ensures
            *id == self.spec_id(),
    {
        &self.id
    }

    /// The name of the house.
    pub fn name(&self) -> (name: &str)
        ensures
            name@ == self.spec_name(),
    {
        self.name.as_str()
    }

    /// The rooms by name.
    pub fn rooms(&self) -> (rooms: &Keyed<SmartRoom>)
        ensures
            rooms@ == self.spec_rooms(),
    {
        &self.rooms
    }

    /// The names of the rooms, in order.
    pub fn get_rooms(&self) -> (names: Vec<String>)
        ensures
            texts(names@) == keys_of(self.spec_rooms()),
    {
        self.rooms.keys()
    }

    /// Puts an empty room under `name`, in the place of a room that was
    /// under that name. Gives the name back.
    pub fn add_room(&mut self, name: String) -> (added: Result<String, SmartHouseError>)
        requires
            old(self).wf(),
        ensures
            final(self).wf(),
            final(self).spec_name() == old(self).spec_name(),
            final(self).spec_id() == old(self).spec_id(),
            added matches Ok(n) && n@ == name@,
            exists|room: SmartRoom|
                is_empty_room(room, name@) && final(self).spec_rooms() == put(
                    old(self).spec_rooms(),
                    name@,
                    room,
                ),
    {
        let key = name.clone();
        let label = name.clone();
        let room = SmartRoom::new(label);
        proof {
            lemma_put(self.rooms@, key@, room);
        }
        let _ = self.rooms.insert(key, room);
        proof {
            let after = put(old(self).spec_rooms(), name@, room);
            assert(is_empty_room(room, name@));
            assert forall|i: int| 0 <= i < after.len() implies (#[trigger] after[i]).1.wf() by {
                if holds(old(self).spec_rooms(), name@) {
                    if i != place(old(self).spec_rooms(), name@) {
                        assert(after[i] == old(self).spec_rooms()[i]);
                    }
                } else {
                    if i < old(self).spec_rooms().len() {
                        assert(after[i] == old(self).spec_rooms()[i]);
                    }
                }
            }
        }
        Ok(name)
    }

    /// Takes the room under `name` out of the house. Fails with
    /// `RemoveRoomError` exactly when the house has no room under that name.
    pub fn remove_room(&mut self, name: String) -> (removed: Result<String, SmartHouseError>)
        requires
            old(self).wf(),
        ensures
            final(self).wf(),
            final(self).spec_name() == old(self).spec_name(),
            final(self).spec_id() == old(self).spec_id(),
            final(self).spec_rooms() == cut(old(self).spec_rooms(), name@),
            removed is Ok <==> holds(old(self).spec_rooms(), name@),
            removed matches Ok(n) ==> n@ == name@,
            removed matches Err(e) ==> (e matches SmartHouseError::RemoveRoomError { name: n }
                && n@ == name@),
    {
        proof {
            lemma_cut(self.rooms@, name@);
        }
        let former = self.rooms.remove(&name);
        proof {
            let before = old(self).spec_rooms();
            let after = self.spec_rooms();
            assert forall|i: int| 0 <= i < after.len() implies (#[trigger] after[i]).1.wf() by {
                if holds(before, name@) {
                    let p = place(before, name@);
                    if i < p {
                        assert(after[i] == before[i]);
                    } else {
                        assert(after[i] == before[i + 1]);
                    }
                }
            }
        }
        match former {
            Some(_) => Ok(name),
            None => Err(SmartHouseError::RemoveRoomError { name }),
        }
    }

    /// Puts `device` into the room `room`, under its own name. Fails with
    /// `GetRoomError` exactly when the house has no such room. Gives the
    /// name of the device.
    pub fn add_device(&mut self, room: String, device: Device) -> (added: Result<
        String,
        SmartHouseError,
    >)
        requires
            old(self).wf(),
        ensures
            final(self).wf(),
            final(self).spec_name() == old(self).spec_name(),
            final(self).spec_id() == old(self).spec_id(),
            added is Ok <==> holds(old(self).spec_rooms(), room@),
            added matches Err(e) ==> (e matches SmartHouseError::GetRoomError { name: n } && n@
                == room@) && final(self).spec_rooms() == old(self).spec_rooms(),
            added matches Ok(n) ==> {
                let before = old(self).spec_rooms();
                let p = place(before, room@);
                &&& n@ == device.name@
                &&& exists|after: SmartRoom|
                    is_room_with(after, before[p].1, put(before[p].1.spec_devices(), n@, device))
                        && final(self).spec_rooms() == before.update(p, (room@, after))
            },
    {
        match self.rooms.position(&room) {
            None => Err(SmartHouseError::GetRoomError { name: room }),
            Some(i) => {
                let ghost before = self.spec_rooms();
                let target = self.rooms.value_mut(i);
                let result = target.add_device(device, None);
                proof {
                    let after = self.spec_rooms();
                    assert(after == before.update(i as int, (room@, after[i as int].1)));
                    assert forall|a: int, b: int| 0 <= a < b < after.len() implies (
                    #[trigger] after[a]).0 != (#[trigger] after[b]).0 by {
                        assert(before[a].0 != before[b].0);
                    }
                    assert forall|k: int| 0 <= k < after.len() implies (#[trigger] after[k]).1.wf() by {
                        if k != i {
                            assert(after[k] == before[k]);
                        }
                    }
                    assert(is_room_with(
                        after[i as int].1,
                        before[i as int].1,
                        put(before[i as int].1.spec_devices(), device.name@, device),
                    ));
                    assert(place(before, room@) == i);
                    assert(result matches Ok(k) && k@ == device.name@);
                }
                match result {
                    Ok(n) => {
                        assert(n@ == device.name@);
                        Ok(n)
                    },
                    Err(e) => Err(SmartHouseError::RoomError(e)),
                }
            },
        }
    }

    /// Takes the device `device_name` out of the room `room`. Fails with
    /// `GetRoomError` exactly when the house has no such room, and with the
    /// room's `RemoveError` exactly when the room has no such device.
    pub fn remove_device(&mut self, room: String, device_name: String) -> (removed: Result<
        String,
        SmartHouseError,
    >)
        requires
            old(self).wf(),
        ensures
            final(self).wf(),
            final(self).spec_name() == old(self).spec_name(),
            final(self).spec_id() == old(self).spec_id(),
            !holds(old(self).spec_rooms(), room@) ==> (removed matches Err(
                SmartHouseError::GetRoomError { name: n },
            ) && n@ == room@) && final(self).spec_rooms() == old(self).spec_rooms(),
            holds(old(self).spec_rooms(), room@) ==> {
                let before = old(self).spec_rooms();
                let p = place(before, room@);
                &&& removed is Ok <==> holds(before[p].1.spec_devices(), device_name@)
                &&& removed matches Ok(n) ==> n@ == device_name@
                &&& removed matches Err(e) ==> (e matches SmartHouseError::RoomError(
                    RoomError::RemoveError { name: n },
                ) && n@ == device_name@)
                &&& exists|after: SmartRoom|
                    is_room_with(
                        after,
                        before[p].1,
                        cut(before[p].1.spec_devices(), device_name@),
                    ) && final(self).spec_rooms() == before.update(p, (room@, after))
            },
    {
        match self.rooms.position(&room) {
            None => Err(SmartHouseError::GetRoomError { name: room }),
            Some(i) => {
                let ghost before = self.spec_rooms();
                let target = self.rooms.value_mut(i);
                let result = target.remove_device(device_name);
                proof {
                    let after = self.spec_rooms();
                    assert(after == before.update(i as int, (room@, after[i as int].1)));
                    assert forall|a: int, b: int| 0 <= a < b < after.len() implies (
                    #[trigger] after[a]).0 != (#[trigger] after[b]).0 by {
                        assert(before[a].0 != before[b].0);
                    }
                    assert forall|k: int| 0 <= k < after.len() implies (#[trigger] after[k]).1.wf() by {
                        if k != i {
                            assert(after[k] == before[k]);
                        }
                    }
                    assert(is_room_with(
                        after[i as int].1,
                        before[i as int].1,
                        cut(before[i as int].1.spec_devices(), device_name@),
                    ));
                }
                match result {
                    Ok(n) => Ok(n),
                    Err(e) => Err(SmartHouseError::RoomError(e)),
                }
            },
        }
    }

    /// The rooms that `rooms` names, in the order of the house; all of them
    /// where it names nothing.
    pub fn get(&self, rooms: Option<Vec<String>>) -> (found: Vec<&SmartRoom>)
        ensures
            targets(found@) == picked(self.spec_rooms(), wanted_keys(rooms)),
    {
        self.rooms.pick(&rooms)
    }

    /// The names of the devices of the room `room`, in order. Fails with
    /// `GetRoomError` exactly when the house has no such room.
    pub fn devices(&self, room: String) -> (names: Result<Vec<String>, SmartHouseError>)
        requires
            self.wf(),
        ensures
            names is Ok <==> holds(self.spec_rooms(), room@),
            names matches Ok(list) ==> texts(list@) == keys_of(
                self.spec_rooms()[place(self.spec_rooms(), room@)].1.spec_devices(),
            ),
            names matches Err(e) ==> (e matches SmartHouseError::GetRoomError { name: n } && n@
                == room@),
    {
        match self.rooms.position(&room) {
            None => Err(SmartHouseError::GetRoomError { name: room }),
            Some(i) => Ok(self.rooms.value(i).get_devices_name()),
        }
    }

    /// The report on the rooms that `rooms` names, or on all, each with all
    /// its devices.
    pub fn report(&self, rooms: Option<Vec<String>>) -> (text: String)
        ensures
            text@ == self.spec_report(wanted_keys(rooms)),
    {
        let found = self.rooms.pick(&rooms);
        let mut entries: Vec<String> = Vec::new();
        let mut i: usize = 0;
        while i < found.len()
            invariant
                i <= found@.len(),
                entries@.len() == i,
                forall|j: int|
                    0 <= j < i ==> (#[trigger] entries@[j])@ == found@[j].spec_report(None),
            decreases found@.len() - i,
        {
            entries.push(found[i].report(None));
            i += 1;
        }
        proof {
            assert(texts(entries@) =~= room_reports(targets(found@)));
        }
        listing_text(self.name.as_str(), ",\nRooms:\n[\n", &entries)
    }
}

} // verus!
