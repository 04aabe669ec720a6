//! One object that lives inside the loaded library, seen from outside.
//!
//! Nothing here crosses the boundary by itself. Each operation marshals its
//! arguments and says which entry point is to be called with them; what the
//! library gave back is handed in again and unmarshaled here.

use crate::buffer::{all_decodable, contents, spec_unpack, unpack, MarshaledBuffer};
use crate::codec::{
    decode, encode, is_c_string, is_marshalable, spec_decode, spec_encode, DecodeError,
};
use crate::error::BridgeError;
use crate::library::{DynamicLibrary, LibraryModel, LoadError};
use crate::symbols::{spec_resolve, Operation, SymbolError, SymbolTable};
use crate::text::texts;
use vstd::prelude::*;

verus! {

/// Where an instance stands in its life.
#[derive(Debug, Clone, Copy, PartialEq, Eq, Structural)]
pub enum Lifecycle {
    /// No object has been made in the library yet.
    Uninitialized,
    /// The handle names an object in the library.
    Live,
    /// The object has been ended. Nothing follows.
    Destroyed,
}

/// Why no instance came to life.
#[derive(Debug, Clone, Copy, PartialEq, Eq, Structural)]
pub enum InstanceError {
    /// The library gave a null handle.
    ConstructionFailed,
}

/// One call across the boundary, ready to be made.
#[derive(Debug)]
pub struct ForeignCall {
    /// The entry point.
    pub operation: Operation,
    /// Its address in the loaded image.
    pub entry: usize,
    /// The handle to pass, null where the entry point takes none.
    pub handle: usize,
    /// The string arguments, in order. They pass to the library.
    pub arguments: Vec<Vec<u8>>,
    /// The array that goes back to the library, where the entry point takes
    /// one.
    pub list: Option<MarshaledBuffer>,
}

/// What a `ForeignCall` stands for.
pub struct CallModel {
    /// The entry point.
    pub operation: Operation,
    /// Its address in the loaded image.
    pub entry: usize,
    /// The handle to pass.
    pub handle: usize,
    /// The string arguments, in order.
    pub arguments: Seq<Seq<u8>>,
    /// The array that goes back to the library.
    pub list: Option<Seq<Seq<u8>>>,
}

impl ForeignCall {
    /// What the call stands for.
    pub open spec fn view(&self) -> CallModel {
        CallModel {
            operation: self.operation,
            entry: self.entry,
            handle: self.handle,
            arguments: contents(self.arguments@),
            list: match self.list {
                Some(b) => Some(b@),
                None => None,
            },
        }
    }

    /// Every argument is NUL-terminated, and the array is sound.
    pub open spec fn wf(&self) -> bool {
        &&& forall|i: int|
            0 <= i < self.arguments@.len() ==> is_c_string(#[trigger] self.arguments@[i]@)
        &&& self.list matches Some(b) ==> b.wf()
    }
}

/// What a `SmartHouseLib` stands for.
pub struct InstanceModel {
    /// Where it stands in its life.
    pub state: Lifecycle,
    /// The handle the library gave; null until then.
    pub handle: usize,
    /// How many own the instance.
    pub owners: nat,
    /// The addresses of the entry points.
    pub table: Seq<usize>,
    /// The library it was made from.
    pub library: LibraryModel,
}

impl InstanceModel {
    /// The call of `operation` on this instance with `arguments`.
    pub open spec fn call(self, operation: Operation, arguments: Seq<Seq<u8>>) -> CallModel {
        CallModel {
            operation,
            entry: self.table[operation.spec_index()],
            handle: self.handle,
            arguments,
            list: None,
        }
    }

    /// The call that gives `list` back to the library.
    pub open spec fn free(self, list: Seq<Seq<u8>>) -> CallModel {
        CallModel {
            operation: Operation::FreeStringList,
            entry: self.table[Operation::FreeStringList.spec_index()],
            handle: 0,
            arguments: Seq::empty(),
            list: Some(list),
        }
    }

    /// After the library has answered the call of `new` with `handle`.
    pub open spec fn attach(self, handle: usize) -> InstanceModel {
        if self.state == Lifecycle::Uninitialized && handle != 0 {
            InstanceModel { state: Lifecycle::Live, handle, owners: 1, ..self }
        } else {
            self
        }
    }

    /// After one more owner, where the count has room for one.
    pub open spec fn share(self) -> InstanceModel {
        if self.state == Lifecycle::Live && self.owners < usize::MAX {
            InstanceModel { owners: self.owners + 1, ..self }
        } else {
            self
        }
    }

    /// Letting go now ends the object in the library.
    pub open spec fn release_destroys(self) -> bool {
        self.state == Lifecycle::Live && self.owners == 1
    }

    /// After one owner has let go.
    pub open spec fn release(self) -> InstanceModel {
        if self.state != Lifecycle::Live {
            self
        } else if self.owners == 1 {
            InstanceModel {
                state: Lifecycle::Destroyed,
                owners: 0,
                library: self.library.release(),
                ..self
            }
        } else {
            InstanceModel { owners: (self.owners - 1) as nat, ..self }
        }
    }

    /// After `n` owners have let go, one after the other.
    pub open spec fn release_n(self, n: nat) -> InstanceModel
        decreases n,
    {
        if n == 0 {
            self
        } else {
            self.release().release_n((n - 1) as nat)
        }
    }

    /// How many calls of `destroy` are issued while `n` owners let go.
    pub open spec fn destroys(self, n: nat) -> nat
        decreases n,
    {
        if n == 0 {
            0
        } else {
            (if self.release_destroys() {
                1nat
            } else {
                0nat
            }) + self.release().destroys((n - 1) as nat)
        }
    }
}

/// While owners remain, no `destroy` is issued. When the last one lets go,
/// exactly one is, and none ever after.
pub proof fn lemma_destroyed_exactly_once(instance: InstanceModel, n: nat)
    requires
        instance.state == Lifecycle::Live,
        instance.owners > 0,
    ensures
        n < instance.owners ==> instance.destroys(n) == 0 && instance.release_n(n).state
            == Lifecycle::Live,
        n >= instance.owners ==> instance.destroys(n) == 1 && instance.release_n(n).state
            == Lifecycle::Destroyed,
    decreases n,
{
    if n > 0 {
        let next = instance.release();
        if next.state == Lifecycle::Live {
            lemma_destroyed_exactly_once(next, (n - 1) as nat);
        } else {
            lemma_destroyed_is_terminal(next, (n - 1) as nat);
        }
    }
}

/// An instance that is not live stays as it is, and issues no `destroy`.
pub proof fn lemma_destroyed_is_terminal(instance: InstanceModel, n: nat)
    requires
        instance.state != Lifecycle::Live,
    ensures
        instance.destroys(n) == 0,
        instance.release_n(n) == instance,
    decreases n,
{
    if n > 0 {
        lemma_destroyed_is_terminal(instance.release(), (n - 1) as nat);
    }
}

/// An instance that is brought to life and let go at once issues exactly one
/// `destroy`, at that moment.
pub proof fn lemma_construct_then_release(instance: InstanceModel, handle: usize, n: nat)
    requires
        instance.state == Lifecycle::Uninitialized,
        handle != 0,
        n >= 1,
    ensures
        instance.attach(handle).destroys(0) == 0,
        instance.attach(handle).release_destroys(),
        instance.attach(handle).destroys(n) == 1,
        instance.attach(handle).release_n(n).state == Lifecycle::Destroyed,
{
    lemma_destroyed_exactly_once(instance.attach(handle), n);
}

/// The first half of making an instance, from what loading and looking up
/// gave: `image` is what the loader gave for the shared object at
/// `library_path`, null where it failed; `file_present` says whether a file
/// is at the path; `lookups` holds what looking each entry point up gave, in
/// the order of resolution. Where the library is loaded and every entry
/// point was found, gives the instance, not yet alive, and the call of `new`
/// that makes the object labelled `name`. Else fails with the reason, the
/// load first.
pub fn open(
    library_path: String,
    file_present: bool,
    image: usize,
    lookups: &Vec<Option<usize>>,
    name: &str,
) -> (opened: Result<(SmartHouseLib, ForeignCall), BridgeError>)
    requires
        is_marshalable(name@),
    ensures
        opened is Ok <==> image != 0 && spec_resolve(lookups@) is Ok,
        opened matches Ok((instance, call)) ==> {
            &&& instance.wf()
            &&& instance@ == (InstanceModel {
                state: Lifecycle::Uninitialized,
                handle: 0,
                owners: 0,
                table: spec_resolve(lookups@)->Ok_0,
                library: LibraryModel { path: library_path@, image, references: 1 },
            })
            &&& call@ == instance@.call(Operation::New, seq![spec_encode(name@)])
            &&& call.wf()
        },
        image == 0 ==> (opened matches Err(BridgeError::Load(e)) && e == (if file_present {
            LoadError::InvalidImage
        } else {
            LoadError::NotFound
        })),
        image != 0 && spec_resolve(lookups@) is Err ==> (opened matches Err(
            BridgeError::Symbol(SymbolError::Missing(missing)),
        ) && missing@ == spec_resolve(lookups@)->Err_0),
{
    let library = match DynamicLibrary::load(library_path, file_present, image) {
        Ok(library) => library,
        Err(e) => {
            return Err(BridgeError::Load(e));
        },
    };
    let table = match SymbolTable::resolve(lookups) {
        Ok(table) => table,
        Err(e) => {
            return Err(BridgeError::Symbol(e));
        },
    };
    let instance = SmartHouseLib::new(library, table);
    let call = instance.construct(name);
    Ok((instance, call))
}

/// The second half of making an instance: takes the handle with which the
/// library answered the call of `new`. A null handle is
/// `ConstructionFailed`, and no instance remains; any other gives the live
/// instance with one owner.
pub fn finish(instance: SmartHouseLib, handle: usize) -> (made: Result<SmartHouseLib, BridgeError>)
    requires
        instance.wf(),
        instance@.state == Lifecycle::Uninitialized,
    ensures
        made is Ok <==> handle != 0,
        made matches Ok(live) ==> live.wf() && live.is_live() && live@ == instance@.attach(handle),
        made matches Err(e) ==> e == BridgeError::Instance(InstanceError::ConstructionFailed),
{
    let mut instance = instance;
    match instance.attach(handle) {
        Ok(()) => Ok(instance),
        Err(e) => Err(BridgeError::Instance(e)),
    }
}

/// One object inside the loaded library: its handle, the table of entry
/// points and the library that it keeps loaded. The handle never leaves but
/// inside a call.
#[derive(Debug)]
pub struct SmartHouseLib {
    state: Lifecycle,
    handle: usize,
    owners: usize,
    table: SymbolTable,
    library: DynamicLibrary,
}

impl SmartHouseLib {
    /// What the instance stands for.
    pub closed spec fn view(&self) -> InstanceModel {
        InstanceModel {
            state: self.state,
            handle: self.handle,
            owners: self.owners as nat,
            table: self.table@,
            library: self.library@,
        }
    }

    /// The table and the library are sound; a live instance has a handle, an
    /// owner and a loaded library; another has no owner.
    pub closed spec fn wf(&self) -> bool {
        &&& self.table.wf()
        &&& self.library.wf()
        &&& self.state == Lifecycle::Live ==> self.handle != 0 && self.owners > 0
            && self.library@.is_loaded()
        &&& self.state != Lifecycle::Live ==> self.owners == 0
        &&& self.state == Lifecycle::Uninitialized ==> self.handle == 0 && self.library@.is_loaded()
    }

    /// The instance is live.
    pub open spec fn is_live(&self) -> bool {
        self@.state == Lifecycle::Live
    }

    /// A sound instance that is live has a handle that is not null and at
    /// least one owner, and its library is still loaded; one that is not
    /// live has no owner.
    pub proof fn lemma_live_keeps_library(&self)
        requires
            self.wf(),
        ensures
            self.is_live() ==> self@.handle != 0 && self@.owners > 0 && self@.library.is_loaded(),
            !self.is_live() ==> self@.owners == 0,
    {
    }

    /// An instance for which no object has been made yet. It takes over one
    /// holder's share of the library and the table resolved from it.
    pub fn new(library: DynamicLibrary, table: SymbolTable) -> (instance: SmartHouseLib)
        requires
            library.wf(),
            library@.is_loaded(),
            table.wf(),
        ensures
            instance.wf(),
            instance@ == (InstanceModel {
                state: Lifecycle::Uninitialized,
                handle: 0,
                owners: 0,
                table: table@,
                library: library@,
            }),
    {
        SmartHouseLib { state: Lifecycle::Uninitialized, handle: 0, owners: 0, table, library }
    }

    /// Where the instance stands in its life.
    pub fn state(&self) -> (state: Lifecycle)
        ensures
            state == self@.state,
    {
        self.state
    }

    /// How many own the instance.
    pub fn owners(&self) -> (owners: usize)
        ensures
            owners == self@.owners,
    {
        self.owners
    }

    /// The library that the instance keeps loaded.
    pub fn library(&self) -> (library: &DynamicLibrary)
        ensures
            library@ == self@.library,
    {
        &self.library
    }

    fn marshal(&self, operation: Operation, arguments: Vec<Vec<u8>>) -> (call: ForeignCall)
        requires
            self.wf(),
            forall|i: int| 0 <= i < arguments@.len() ==> is_c_string(#[trigger] arguments@[i]@),
        ensures
            call@ == self@.call(operation, contents(arguments@)),
            call.wf(),
    {
        let entry = self.table.address(operation);
        ForeignCall { operation, entry, handle: self.handle, arguments, list: None }
    }

    /// The call of `new` that makes the object, labelled `name`.
    pub fn construct(&self, name: &str) -> (call: ForeignCall)
        requires
            self.wf(),
            self@.state == Lifecycle::Uninitialized,
            is_marshalable(name@),
        ensures
            call@ == self@.call(Operation::New, seq![spec_encode(name@)]),
            call@.handle == 0,
            call.wf(),
    {
        let mut arguments: Vec<Vec<u8>> = Vec::new();
        arguments.push(encode(name));
        proof {
            assert(contents(arguments@) =~= seq![spec_encode(name@)]);
        }
        self.marshal(Operation::New, arguments)
    }

    /// Takes the handle with which the library answered the call of `new`.
    /// A null handle is `ConstructionFailed`, and the instance stays as it
    /// was; any other brings it to life with one owner.
    pub fn attach(&mut self, handle: usize) -> (outcome: Result<(), InstanceError>)
        requires
            old(self).wf(),
            old(self)@.state == Lifecycle::Uninitialized,
        ensures
            final(self).wf(),
            final(self)@ == old(self)@.attach(handle),
            outcome is Ok <==> handle != 0,
            outcome matches Err(e) ==> e == InstanceError::ConstructionFailed,
    {
        if handle == 0 {
            Err(InstanceError::ConstructionFailed)
        } else {
            self.state = Lifecycle::Live;
            self.handle = handle;
            self.owners = 1;
            Ok(())
        }
    }

    /// The call of `add_room` for the room `name`.
    pub fn add_room(&self, name: String) -> (call: ForeignCall)
        requires
            self.wf(),
            self.is_live(),
            is_marshalable(name@),
        ensures
            call@ == self@.call(Operation::AddRoom, seq![spec_encode(name@)]),
            call.wf(),
    {
        let mut arguments: Vec<Vec<u8>> = Vec::new();
        arguments.push(encode(name.as_str()));
        proof {
            assert(contents(arguments@) =~= seq![spec_encode(name@)]);
        }
        self.marshal(Operation::AddRoom, arguments)
    }

    /// The call of `remove_room` for the room `name`.
    pub fn remove_room(&self, name: String) -> (call: ForeignCall)
        requires
            self.wf(),
            self.is_live(),
            is_marshalable(name@),
        ensures
            call@ == self@.call(Operation::RemoveRoom, seq![spec_encode(name@)]),
            call.wf(),
    {
        let mut arguments: Vec<Vec<u8>> = Vec::new();
        arguments.push(encode(name.as_str()));
        proof {
            assert(contents(arguments@) =~= seq![spec_encode(name@)]);
        }
        self.marshal(Operation::RemoveRoom, arguments)
    }

    /// The call of `get_list_rooms_name`. What it gives goes to `read_list`.
    pub fn get_list_rooms_name(&self) -> (call: ForeignCall)
        requires
            self.wf(),
            self.is_live(),
        ensures
            call@ == self@.call(Operation::GetListRoomsName, Seq::empty()),
            call.wf(),
    {
        let arguments: Vec<Vec<u8>> = Vec::new();
        proof {
            assert(contents(arguments@) =~= Seq::<Seq<u8>>::empty());
        }
        self.marshal(Operation::GetListRoomsName, arguments)
    }

    /// The call of `remove_device` for the device `name` of the room `room`.
    pub fn remove_device(&self, room: String, name: String) -> (call: ForeignCall)
        requires
            self.wf(),
            self.is_live(),
            is_marshalable(room@),
            is_marshalable(name@),
        ensures
            call@ == self@.call(
                Operation::RemoveDevice,
                seq![spec_encode(room@), spec_encode(name@)],
            ),
            call.wf(),
    {
        let mut arguments: Vec<Vec<u8>> = Vec::new();
        arguments.push(encode(room.as_str()));
        arguments.push(encode(name.as_str()));
        proof {
            assert(contents(arguments@) =~= seq![spec_encode(room@), spec_encode(name@)]);
        }
        self.marshal(Operation::RemoveDevice, arguments)
    }

    /// The call of `get_list_devices_name` for the room `room`. What it gives
    /// goes to `read_list`.
    pub fn get_list_devices_name(&self, room: String) -> (call: ForeignCall)
        requires
            self.wf(),
            self.is_live(),
            is_marshalable(room@),
        ensures
            call@ == self@.call(Operation::GetListDevicesName, seq![spec_encode(room@)]),
            call.wf(),
    {
        let mut arguments: Vec<Vec<u8>> = Vec::new();
        arguments.push(encode(room.as_str()));
        proof {
            assert(contents(arguments@) =~= seq![spec_encode(room@)]);
        }
        self.marshal(Operation::GetListDevicesName, arguments)
    }

    /// The call of `report`. What it gives goes to `read_report`.
    pub fn report(&self) -> (call: ForeignCall)
        requires
            self.wf(),
            self.is_live(),
        ensures
            call@ == self@.call(Operation::Report, Seq::empty()),
            call.wf(),
    {
        let arguments: Vec<Vec<u8>> = Vec::new();
        proof {
            assert(contents(arguments@) =~= Seq::<Seq<u8>>::empty());
        }
        self.marshal(Operation::Report, arguments)
    }

    /// The call of `add_test_device_outlet` that puts an outlet `name`,
    /// described by `description`, into the room `room`.
    pub fn add_test_device_outlet(&self, room: String, name: String, description: String) -> (call:
        ForeignCall)
        requires
            self.wf(),
            self.is_live(),
            is_marshalable(room@),
            is_marshalable(name@),
            is_marshalable(description@),
        ensures
            call@ == self@.call(
                Operation::AddTestDeviceOutlet,
                seq![spec_encode(room@), spec_encode(name@), spec_encode(description@)],
            ),
            call.wf(),
    {
        let mut arguments: Vec<Vec<u8>> = Vec::new();
        arguments.push(encode(room.as_str()));
        arguments.push(encode(name.as_str()));
        arguments.push(encode(description.as_str()));
        proof {
            assert(contents(arguments@) =~= seq![
                spec_encode(room@),
                spec_encode(name@),
                spec_encode(description@),
            ]);
        }
        self.marshal(Operation::AddTestDeviceOutlet, arguments)
    }

    /// Unmarshals the array that a list operation gave, and issues the call
    /// of `free_string_list` that gives the array back: one for each array,
    /// whether or not it decodes. No array at all is an empty list, and
    /// nothing is to be given back.
    pub fn read_list(&self, buffer: Option<MarshaledBuffer>) -> (outcome: (
        Result<Vec<String>, DecodeError>,
        Option<ForeignCall>,
    ))
        requires
            self.wf(),
            buffer matches Some(b) ==> b.wf(),
        ensures
            buffer is None ==> outcome.1 is None && (outcome.0 matches Ok(v) && v@.len() == 0),
            buffer matches Some(b) ==> {
                &&& outcome.0 is Ok <==> all_decodable(b@)
                &&& outcome.0 matches Ok(v) ==> spec_unpack(b@) == Ok::<
                    Seq<Seq<char>>,
                    DecodeError,
                >(texts(v@))
                &&& outcome.0 matches Err(e) ==> e == DecodeError::InvalidEncoding
                &&& outcome.1 matches Some(call) && call@ == self@.free(b@) && call.wf()
            },
    {
        match buffer {
            None => (Ok(Vec::new()), None),
            Some(b) => {
                let list = unpack(&b);
                let entry = self.table.address(Operation::FreeStringList);
                let arguments: Vec<Vec<u8>> = Vec::new();
                proof {
                    assert(contents(arguments@) =~= Seq::<Seq<u8>>::empty());
                }
                let call = ForeignCall {
                    operation: Operation::FreeStringList,
                    entry,
                    handle: 0,
                    arguments,
                    list: Some(b),
                };
                (list, Some(call))
            },
        }
    }

    /// Unmarshals the buffer that `report` gave, taking it over. No buffer at
    /// all is the empty text.
    pub fn read_report(&self, buffer: Option<Vec<u8>>) -> (text: Result<String, DecodeError>)
        requires
            buffer matches Some(b) ==> is_c_string(b@),
        ensures
            buffer is None ==> (text matches Ok(s) && s@.len() == 0),
            buffer matches Some(b) ==> {
                &&& text matches Ok(s) ==> spec_decode(b@) == Ok::<Seq<char>, DecodeError>(s@)
                &&& text matches Err(e) ==> spec_decode(b@) == Err::<Seq<char>, DecodeError>(e)
            },
    {
        match buffer {
            None => Ok(String::new()),
            Some(b) => decode(b),
        }
    }

    /// Counts one more owner. Says whether the owner was counted: not when
    /// the instance is not live, nor when the count is full.
    pub fn share(&mut self) -> (counted: bool)
        requires
            old(self).wf(),
        ensures
            final(self).wf(),
            final(self)@ == old(self)@.share(),
            counted == (old(self).is_live() && old(self)@.owners < usize::MAX),
    {
        if self.state == Lifecycle::Live && self.owners < usize::MAX {
            self.owners = self.owners + 1;
            true
        } else {
            false
        }
    }

    /// One owner lets go. When it was the last, the instance is destroyed:
    /// the call of `destroy` is issued, this once, and the instance lets go
    /// of the library; the flag says whether the library is to be unloaded
    /// after the call.
    pub fn release(&mut self) -> (outcome: (Option<ForeignCall>, bool))
        requires
            old(self).wf(),
        ensures
            final(self).wf(),
            final(self)@ == old(self)@.release(),
            outcome.0 is Some <==> old(self)@.release_destroys(),
            outcome.0 matches Some(call) ==> call@ == old(self)@.call(
                Operation::Destroy,
                Seq::empty(),
            ) && call.wf(),
            outcome.1 == (old(self)@.release_destroys() && old(self)@.library.release_unloads()),
    {
        if self.state != Lifecycle::Live {
            (None, false)
        } else if self.owners == 1 {
            let arguments: Vec<Vec<u8>> = Vec::new();
            proof {
                assert(contents(arguments@) =~= Seq::<Seq<u8>>::empty());
            }
            let call = self.marshal(Operation::Destroy, arguments);
            let unload = self.library.release();
            self.state = Lifecycle::Destroyed;
            self.owners = 0;
            (Some(call), unload)
        } else {
            self.owners = self.owners - 1;
            (None, false)
        }
    }
}

} // verus!
