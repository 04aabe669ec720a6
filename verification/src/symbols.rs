//! The fixed set of entry points that the bridge needs from the loaded
//! library, and their resolution into a table.

use vstd::prelude::*;

verus! {

/// One entry point of the library's C interface.
#[derive(Debug, Clone, Copy, PartialEq, Eq, Structural)]
pub enum Operation {
    /// Takes a label, gives an opaque handle.
    New,
    /// Takes a handle and ends the object behind it.
    Destroy,
    /// Takes a handle and a room label.
    AddRoom,
    /// Takes a handle and a room label.
    RemoveRoom,
    /// Takes a handle, gives an array of strings and its count.
    GetListRoomsName,
    /// Takes an array of strings and its count back.
    FreeStringList,
    /// Takes a handle, a room label and a device label.
    RemoveDevice,
    /// Takes a handle and a room label, gives an array of strings and its count.
    GetListDevicesName,
    /// Takes a handle, gives one owned string.
    Report,
    /// Takes a handle, a room label, a device label and a description.
    AddTestDeviceOutlet,
}

/// The number of entry points.
pub const OPERATION_COUNT: usize = 10;

impl Operation {
    /// The place of the entry point in the order of resolution.
    pub open spec fn spec_index(self) -> int {
        match self {
            Operation::New => 0,
            Operation::Destroy => 1,
            Operation::AddRoom => 2,
            Operation::RemoveRoom => 3,
            Operation::GetListRoomsName => 4,
            Operation::FreeStringList => 5,
            Operation::RemoveDevice => 6,
            Operation::GetListDevicesName => 7,
            Operation::Report => 8,
            Operation::AddTestDeviceOutlet => 9,
        }
    }

    /// The entry point at a place in the order of resolution.
    pub open spec fn spec_at(index: int) -> Operation {
        if index == 0 {
            Operation::New
        } else if index == 1 {
            Operation::Destroy
        } else if index == 2 {
            Operation::AddRoom
        } else if index == 3 {
            Operation::RemoveRoom
        } else if index == 4 {
            Operation::GetListRoomsName
        } else if index == 5 {
            Operation::FreeStringList
        } else if index == 6 {
            Operation::RemoveDevice
        } else if index == 7 {
            Operation::GetListDevicesName
        } else if index == 8 {
            Operation::Report
        } else {
            Operation::AddTestDeviceOutlet
        }
    }

    /// The name under which the library exports the entry point.
    pub open spec fn spec_name(self) -> Seq<char> {
        match self {
            Operation::New => "new"@,
            Operation::Destroy => "destroy"@,
            Operation::AddRoom => "add_room"@,
            Operation::RemoveRoom => "remove_room"@,
            Operation::GetListRoomsName => "get_list_rooms_name"@,
            Operation::FreeStringList => "free_string_list"@,
            Operation::RemoveDevice => "remove_device"@,
            Operation::GetListDevicesName => "get_list_devices_name"@,
            Operation::Report => "report"@,
            Operation::AddTestDeviceOutlet => "add_test_device_outlet"@,
        }
    }

    /// The place of the entry point in the order of resolution.
    pub fn index(self) -> (i: usize)
        ensures
            i == self.spec_index(),
            i < OPERATION_COUNT,
            Operation::spec_at(i as int) == self,
    {
        match self {
            Operation::New => 0,
            Operation::Destroy => 1,
            Operation::AddRoom => 2,
            Operation::RemoveRoom => 3,
            Operation::GetListRoomsName => 4,
            Operation::FreeStringList => 5,
            Operation::RemoveDevice => 6,
            Operation::GetListDevicesName => 7,
            Operation::Report => 8,
            Operation::AddTestDeviceOutlet => 9,
        }
    }

    /// The entry point at `index`, if there is one.
    pub fn at(index: usize) -> (op: Option<Operation>)
        ensures
            op is Some <==> index < OPERATION_COUNT,
            op matches Some(o) ==> o == Operation::spec_at(index as int) && o.spec_index()
                == index,
    {
        if index == 0 {
            Some(Operation::New)
        } else if index == 1 {
            Some(Operation::Destroy)
        } else if index == 2 {
            Some(Operation::AddRoom)
        } else if index == 3 {
            Some(Operation::RemoveRoom)
        } else if index == 4 {
            Some(Operation::GetListRoomsName)
        } else if index == 5 {
            Some(Operation::FreeStringList)
        } else if index == 6 {
            Some(Operation::RemoveDevice)
        } else if index == 7 {
            Some(Operation::GetListDevicesName)
        } else if index == 8 {
            Some(Operation::Report)
        } else if index == 9 {
            Some(Operation::AddTestDeviceOutlet)
        } else {
            None
        }
    }

    /// The name under which the library exports the entry point.
    pub fn name(self) -> (name: &'static str)
        ensures
            name@ == self.spec_name(),
    {
        match self {
            Operation::New => "new",
            Operation::Destroy => "destroy",
            Operation::AddRoom => "add_room",
            Operation::RemoveRoom => "remove_room",
            Operation::GetListRoomsName => "get_list_rooms_name",
            Operation::FreeStringList => "free_string_list",
            Operation::RemoveDevice => "remove_device",
            Operation::GetListDevicesName => "get_list_devices_name",
            Operation::Report => "report",
            Operation::AddTestDeviceOutlet => "add_test_device_outlet",
        }
    }
}

/// Why no table could be made.
#[derive(Debug, PartialEq, Eq)]
pub enum SymbolError {
    /// The library does not export the entry point of this name.
    Missing(String),
}

/// The entry point at `index` was looked up and found at an address that is
/// not null.
pub open spec fn is_found(lookups: Seq<Option<usize>>, index: int) -> bool {
    &&& 0 <= index < lookups.len()
    &&& lookups[index] is Some
    &&& lookups[index]->0 != 0
}

/// The first place from `from` on whose entry point was not found, or the
/// number of entry points if each was.
pub open spec fn first_missing(lookups: Seq<Option<usize>>, from: int) -> int
    decreases OPERATION_COUNT - from,
{
    if from >= OPERATION_COUNT {
        OPERATION_COUNT as int
    } else if !is_found(lookups, from) {
        from
    } else {
        first_missing(lookups, from + 1)
    }
}

/// What resolution yields: the addresses of all entry points in their
/// order, or the name of the first that is missing.
pub open spec fn spec_resolve(lookups: Seq<Option<usize>>) -> Result<Seq<usize>, Seq<char>> {
    let k = first_missing(lookups, 0);
    if k >= OPERATION_COUNT {
        Ok(Seq::new(OPERATION_COUNT as nat, |i: int| lookups[i]->0))
    } else {
        Err(Operation::spec_at(k).spec_name())
    }
}

/// Where `first_missing` points, and what lies before it.
pub proof fn lemma_first_missing(lookups: Seq<Option<usize>>, from: int)
    requires
        0 <= from <= OPERATION_COUNT,
    ensures
        from <= first_missing(lookups, from) <= OPERATION_COUNT,
        forall|i: int| from <= i < first_missing(lookups, from) ==> is_found(lookups, i),
        first_missing(lookups, from) < OPERATION_COUNT ==> !is_found(
            lookups,
            first_missing(lookups, from),
        ),
    decreases OPERATION_COUNT - from,
{
    if from < OPERATION_COUNT && is_found(lookups, from) {
        lemma_first_missing(lookups, from + 1);
    }
}

/// A library that lacks any one entry point yields no table.
pub proof fn lemma_missing_symbol_fails(lookups: Seq<Option<usize>>, index: int)
    requires
        0 <= index < OPERATION_COUNT,
        !is_found(lookups, index),
    ensures
        spec_resolve(lookups) is Err,
{
    lemma_first_missing(lookups, 0);
}

/// The resolved entry points of one loaded library. It is made once and
/// never changes.
#[derive(Debug, PartialEq, Eq)]
pub struct SymbolTable {
    addresses: Vec<usize>,
}

impl SymbolTable {
    /// The addresses of the entry points, in the order of resolution.
    pub closed spec fn view(&self) -> Seq<usize> {
        self.addresses@
    }

    /// Every entry point has an address, and none is null.
    pub open spec fn wf(&self) -> bool {
        &&& self@.len() == OPERATION_COUNT
        &&& forall|i: int| 0 <= i < OPERATION_COUNT ==> self@[i] != 0
    }

    /// Makes the table from the outcome of looking each entry point up, in
    /// the order of resolution: `lookups[i]` is the address found for the
    /// entry point at place `i`, and a place that `lookups` lacks counts as
    /// not found. Fails with the name of the first entry point that was not
    /// found; then no table exists.
    pub fn resolve(lookups: &Vec<Option<usize>>) -> (table: Result<SymbolTable, SymbolError>)
        ensures
            table is Ok <==> forall|i: int| 0 <= i < OPERATION_COUNT ==> is_found(lookups@, i),
            table matches Ok(t) ==> t.wf() && spec_resolve(lookups@) == Ok::<
                Seq<usize>,
                Seq<char>,
            >(t@),
            table matches Err(SymbolError::Missing(name)) ==> spec_resolve(lookups@) == Err::<
                Seq<usize>,
                Seq<char>,
            >(name@),
    {
        let mut addresses: Vec<usize> = Vec::new();
        let mut i: usize = 0;
        while i < OPERATION_COUNT
            invariant
                i <= OPERATION_COUNT,
                addresses@.len() == i,
                forall|j: int| 0 <= j < i ==> is_found(lookups@, j),
                forall|j: int| 0 <= j < i ==> addresses@[j] == lookups@[j]->0,
                first_missing(lookups@, 0) == first_missing(lookups@, i as int),
            decreases OPERATION_COUNT - i,
        {
            let found: Option<usize> = if i < lookups.len() {
                lookups[i]
            } else {
                None
            };
            match found {
                Some(address) if address != 0 => {
                    addresses.push(address);
                },
                _ => {
                    assert(!is_found(lookups@, i as int));
                    let op = Operation::at(i);
                    let name = op.unwrap().name().to_owned();
                    return Err(SymbolError::Missing(name));
                },
            }
            i += 1;
        }
        let table = SymbolTable { addresses };
        proof {
            assert(first_missing(lookups@, OPERATION_COUNT as int) == OPERATION_COUNT);
            assert(table@ =~= Seq::new(OPERATION_COUNT as nat, |k: int| lookups@[k]->0));
            assert forall|j: int| 0 <= j < OPERATION_COUNT implies table@[j] != 0 by {
                assert(is_found(lookups@, j));
            }
        }
        Ok(table)
    }

    /// The address of an entry point.
    pub fn address(&self, operation: Operation) -> (address: usize)
        requires
            self.wf(),
        ensures
            address == self@[operation.spec_index()],
            address != 0,
    {
        self.addresses[operation.index()]
    }
}

} // verus!
