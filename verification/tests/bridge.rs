use smart_house::bridge::{finish, open, ForeignCall, InstanceError, Lifecycle, SmartHouseLib};
use smart_house::buffer::{pack, MarshaledBuffer};
use smart_house::codec::{can_encode, DecodeError};
use smart_house::error::{BridgeError, RegistryError};
use smart_house::exports;
use smart_house::library::{DynamicLibrary, LoadError};
use smart_house::registry::{session_key, InstanceRegistry, SESSION_KEY_LEN};
use smart_house::symbols::{Operation, SymbolError, SymbolTable, OPERATION_COUNT};

/// What an entry point hands back.
enum Reply {
    Nothing,
    Handle(usize),
    List(Option<MarshaledBuffer>),
    Text(Option<Vec<u8>>),
}

/// A smart-house library inside the test process: handles are places in a
/// list of houses, and every call is counted.
struct Library {
    houses: Vec<Option<Box<exports::SmartHouseLib>>>,
    calls: Vec<Operation>,
    released: usize,
    missing: Option<Operation>,
    fail_new: bool,
}

impl Library {
    fn full() -> Library {
        Library { houses: Vec::new(), calls: Vec::new(), released: 0, missing: None, fail_new: false }
    }

    fn without(operation: Operation) -> Library {
        Library { missing: Some(operation), ..Library::full() }
    }

    fn lookups(&self) -> Vec<Option<usize>> {
        (0..OPERATION_COUNT)
            .map(|i| {
                let operation = Operation::at(i).unwrap();
                if Some(operation) == self.missing {
                    None
                } else {
                    Some(0x1000 + 16 * i)
                }
            })
            .collect()
    }

    fn count(&self, operation: Operation) -> usize {
        self.calls.iter().filter(|made| **made == operation).count()
    }

    fn house(&mut self, handle: usize) -> &mut exports::SmartHouseLib {
        self.houses[handle - 1].as_mut().unwrap()
    }

    fn call(&mut self, call: ForeignCall) -> Reply {
        assert_eq!(call.entry, 0x1000 + 16 * call.operation.index());
        self.calls.push(call.operation);
        let mut arguments = call.arguments.into_iter();
        let mut next = || arguments.next().unwrap();
        match call.operation {
            Operation::New => {
                if self.fail_new {
                    return Reply::Handle(0);
                }
                self.houses.push(Some(exports::new(next())));
                Reply::Handle(self.houses.len())
            }
            Operation::Destroy => {
                let house = self.houses[call.handle - 1].take();
                assert!(exports::destroy(house));
                Reply::Nothing
            }
            Operation::AddRoom => {
                exports::add_room(self.house(call.handle), next());
                Reply::Nothing
            }
            Operation::RemoveRoom => {
                exports::remove_room(self.house(call.handle), next());
                Reply::Nothing
            }
            Operation::GetListRoomsName => {
                Reply::List(exports::get_list_rooms_name(self.house(call.handle)))
            }
            Operation::FreeStringList => {
                self.released += exports::free_string_list(call.list.unwrap());
                Reply::Nothing
            }
            Operation::RemoveDevice => {
                let room = next();
                let device = next();
                exports::remove_device(self.house(call.handle), room, device);
                Reply::Nothing
            }
            Operation::GetListDevicesName => {
                Reply::List(exports::get_list_devices_name(self.house(call.handle), next()))
            }
            Operation::Report => Reply::Text(exports::report(self.house(call.handle))),
            Operation::AddTestDeviceOutlet => {
                let room = next();
                let device = next();
                let description = next();
                exports::add_test_device_outlet(self.house(call.handle), room, device, description);
                Reply::Nothing
            }
        }
    }

    fn create(&mut self, path: String, label: String) -> Result<SmartHouseLib, BridgeError> {
        let (instance, call) = open(path, true, 0x7000, &self.lookups(), &label)?;
        match self.call(call) {
            Reply::Handle(handle) => finish(instance, handle),
            _ => unreachable!(),
        }
    }

    fn list(&mut self, instance: &SmartHouseLib, call: ForeignCall) -> Vec<String> {
        let buffer = match self.call(call) {
            Reply::List(buffer) => buffer,
            _ => unreachable!(),
        };
        let (names, free) = instance.read_list(buffer);
        if let Some(free) = free {
            self.call(free);
        }
        names.unwrap()
    }

    fn text(&mut self, instance: &SmartHouseLib, call: ForeignCall) -> String {
        match self.call(call) {
            Reply::Text(buffer) => instance.read_report(buffer).unwrap(),
            _ => unreachable!(),
        }
    }
}

const PATH: &str = "libs/libsmart_house.so";

fn instance_in(library: &mut Library, name: &str) -> SmartHouseLib {
    library.create(PATH.to_string(), name.to_string()).unwrap()
}

#[test]
fn c_lib_test_add_rooms() {
    let mut library = Library::full();
    let my_struct = instance_in(&mut library, "тестовая");

    library.call(my_struct.add_room("комната 1".to_string()));
    library.call(my_struct.add_room("комната 2".to_string()));

    let mut rooms = library.list(&my_struct, my_struct.get_list_rooms_name());
    rooms.sort();
    assert_eq!(rooms, vec!["комната 1".to_string(), "комната 2".to_string()]);

    library.call(my_struct.remove_room("комната 1".to_string()));

    let rooms = library.list(&my_struct, my_struct.get_list_rooms_name());
    assert_eq!(rooms, vec!["комната 2".to_string()]);
}

#[test]
fn c_lib_test_add_devices() {
    let mut library = Library::full();
    let my_struct = instance_in(&mut library, "тестовая");
    let room_name = "комната 1".to_string();

    library.call(my_struct.add_room(room_name.clone()));
    library.call(my_struct.add_test_device_outlet(
        room_name.clone(),
        "устройство 1".to_string(),
        "тестовое устройство 1".to_string(),
    ));
    library.call(my_struct.add_test_device_outlet(
        room_name.clone(),
        "устройство 2".to_string(),
        "тестовое устройство 2".to_string(),
    ));

    let mut test = library.list(&my_struct, my_struct.get_list_devices_name(room_name.clone()));
    test.sort();
    assert_eq!(test, vec!["устройство 1".to_string(), "устройство 2".to_string()]);
}

#[test]
fn c_lib_test_report() {
    let mut library = Library::full();
    let my_struct = instance_in(&mut library, "тестовая");
    let room_name = "комната 1".to_string();

    library.call(my_struct.add_room(room_name.clone()));
    library.call(my_struct.add_test_device_outlet(
        room_name.clone(),
        "устройство 1".to_string(),
        "тестовое устройство 1".to_string(),
    ));

    let test = library.text(&my_struct, my_struct.report());
    assert_eq!(test, "Name: тестовая,\nRooms:\n[\n{\nName: комната 1,\nDevices:\n[\n{\nName: устройство 1,\nOn: false,\nDescription: тестовое устройство 1,\nPower: 0\n},\n]\n},\n]".to_string());
}

#[test]
fn remove_device_reaches_its_own_entry_point() {
    let mut library = Library::full();
    let instance = instance_in(&mut library, "house");
    let call = instance.remove_device("Room A".to_string(), "Lamp".to_string());
    assert_eq!(call.operation, Operation::RemoveDevice);
    assert_eq!(call.entry, 0x1000 + 16 * Operation::RemoveDevice.index());
    assert_eq!(call.arguments, vec![b"Room A\0".to_vec(), b"Lamp\0".to_vec()]);
    assert!(call.list.is_none());
}

#[test]
fn calls_carry_the_handle_and_the_marshaled_arguments() {
    let mut library = Library::full();
    let first = instance_in(&mut library, "one");
    let second = instance_in(&mut library, "two");
    let call = second.add_test_device_outlet("r".to_string(), "d".to_string(), "x y".to_string());
    assert_eq!(call.operation, Operation::AddTestDeviceOutlet);
    assert_eq!(call.handle, 2);
    assert_eq!(call.arguments, vec![b"r\0".to_vec(), b"d\0".to_vec(), b"x y\0".to_vec()]);
    let call = first.get_list_rooms_name();
    assert_eq!(call.handle, 1);
    assert!(call.arguments.is_empty());
    let call = first.report();
    assert_eq!((call.operation, call.handle), (Operation::Report, 1));
    let call = first.get_list_devices_name("кухня".to_string());
    assert_eq!(call.arguments, vec!["кухня\0".as_bytes().to_vec()]);
}

#[test]
fn construct_calls_new_with_the_label_and_no_handle() {
    let library = Library::full();
    let (instance, call) =
        open(PATH.to_string(), true, 0x7000, &library.lookups(), "my house").unwrap();
    assert_eq!(instance.state(), Lifecycle::Uninitialized);
    assert_eq!(instance.owners(), 0);
    assert_eq!(call.operation, Operation::New);
    assert_eq!(call.handle, 0);
    assert_eq!(call.entry, 0x1000);
    assert_eq!(call.arguments, vec![b"my house\0".to_vec()]);
    assert_eq!(instance.library().path(), PATH);
    assert_eq!(instance.library().image(), 0x7000);
    assert_eq!(instance.library().references(), 1);
}

#[test]
fn null_handle_is_construction_failed() {
    let mut library = Library::full();
    library.fail_new = true;
    let made = library.create(PATH.to_string(), "house".to_string());
    assert_eq!(made.unwrap_err(), BridgeError::Instance(InstanceError::ConstructionFailed));

    let (mut instance, _) =
        open(PATH.to_string(), true, 0x7000, &library.lookups(), "house").unwrap();
    assert_eq!(instance.attach(0), Err(InstanceError::ConstructionFailed));
    assert_eq!(instance.state(), Lifecycle::Uninitialized);
    assert_eq!(instance.attach(9), Ok(()));
    assert_eq!(instance.state(), Lifecycle::Live);
    assert_eq!(instance.owners(), 1);
}

#[test]
fn load_failures_are_told_apart() {
    let library = Library::full();
    let missing = open(PATH.to_string(), false, 0, &library.lookups(), "h");
    assert_eq!(missing.unwrap_err(), BridgeError::Load(LoadError::NotFound));
    let broken = open(PATH.to_string(), true, 0, &library.lookups(), "h");
    assert_eq!(broken.unwrap_err(), BridgeError::Load(LoadError::InvalidImage));
    assert_eq!(DynamicLibrary::load(PATH.to_string(), false, 0).unwrap_err(), LoadError::NotFound);
    assert_eq!(
        DynamicLibrary::load(PATH.to_string(), true, 0).unwrap_err(),
        LoadError::InvalidImage
    );
}

#[test]
fn every_missing_symbol_is_named_and_no_instance_is_made() {
    for i in 0..OPERATION_COUNT {
        let operation = Operation::at(i).unwrap();
        let mut library = Library::without(operation);
        let made = library.create(PATH.to_string(), "house".to_string());
        assert_eq!(
            made.unwrap_err(),
            BridgeError::Symbol(SymbolError::Missing(operation.name().to_string()))
        );
        assert!(library.calls.is_empty());
        assert!(library.houses.is_empty());
    }
}

#[test]
fn resolve_names_the_first_missing_symbol() {
    let mut lookups: Vec<Option<usize>> = (1..=OPERATION_COUNT).map(Some).collect();
    lookups[3] = None;
    lookups[7] = None;
    assert_eq!(
        SymbolTable::resolve(&lookups),
        Err(SymbolError::Missing("remove_room".to_string()))
    );
    lookups[3] = Some(0);
    assert_eq!(
        SymbolTable::resolve(&lookups),
        Err(SymbolError::Missing("remove_room".to_string()))
    );
    lookups[3] = Some(44);
    assert_eq!(
        SymbolTable::resolve(&lookups),
        Err(SymbolError::Missing("get_list_devices_name".to_string()))
    );
    lookups.truncate(7);
    assert_eq!(
        SymbolTable::resolve(&lookups),
        Err(SymbolError::Missing("get_list_devices_name".to_string()))
    );
    assert_eq!(
        SymbolTable::resolve(&Vec::new()),
        Err(SymbolError::Missing("new".to_string()))
    );
}

#[test]
fn resolve_keeps_every_address() {
    let lookups: Vec<Option<usize>> = (0..OPERATION_COUNT).map(|i| Some(100 + i)).collect();
    let table = SymbolTable::resolve(&lookups).unwrap();
    for i in 0..OPERATION_COUNT {
        let operation = Operation::at(i).unwrap();
        assert_eq!(operation.index(), i);
        assert_eq!(table.address(operation), 100 + i);
    }
    assert_eq!(Operation::at(OPERATION_COUNT), None);
}

#[test]
fn operations_have_the_exported_names() {
    let names: Vec<&str> = (0..OPERATION_COUNT).map(|i| Operation::at(i).unwrap().name()).collect();
    assert_eq!(
        names,
        vec![
            "new",
            "destroy",
            "add_room",
            "remove_room",
            "get_list_rooms_name",
            "free_string_list",
            "remove_device",
            "get_list_devices_name",
            "report",
            "add_test_device_outlet",
        ]
    );
}

#[test]
fn destroy_is_issued_once_when_the_last_owner_lets_go() {
    let mut library = Library::full();
    let mut instance = instance_in(&mut library, "house");
    assert!(instance.share());
    assert!(instance.share());
    assert_eq!(instance.owners(), 3);

    let (call, unload) = instance.release();
    assert!(call.is_none() && !unload);
    let (call, unload) = instance.release();
    assert!(call.is_none() && !unload);
    assert_eq!(instance.state(), Lifecycle::Live);
    assert_eq!(library.count(Operation::Destroy), 0);

    let (call, unload) = instance.release();
    let call = call.unwrap();
    assert_eq!((call.operation, call.handle), (Operation::Destroy, 1));
    assert!(unload);
    library.call(call);
    assert_eq!(instance.state(), Lifecycle::Destroyed);
    assert_eq!(instance.owners(), 0);
    assert!(!instance.library().is_loaded());

    let (call, unload) = instance.release();
    assert!(call.is_none() && !unload);
    assert!(!instance.share());
    assert_eq!(instance.state(), Lifecycle::Destroyed);
    assert_eq!(library.count(Operation::Destroy), 1);
    assert!(library.houses[0].is_none());
}

#[test]
fn construct_then_release_destroys_exactly_once() {
    let mut library = Library::full();
    let mut instance = instance_in(&mut library, "house");
    assert_eq!(library.count(Operation::Destroy), 0);
    let (call, _) = instance.release();
    library.call(call.unwrap());
    for _ in 0..3 {
        assert!(instance.release().0.is_none());
    }
    assert_eq!(library.count(Operation::New), 1);
    assert_eq!(library.count(Operation::Destroy), 1);
}

#[test]
fn library_is_kept_while_another_holds_it() {
    let mut shared = DynamicLibrary::load(PATH.to_string(), true, 5).unwrap();
    assert!(shared.share());
    assert_eq!(shared.references(), 2);
    assert!(!shared.release());
    assert!(shared.is_loaded());
    assert!(shared.release());
    assert!(!shared.is_loaded());
    assert!(!shared.release());
    assert!(!shared.share());
    assert_eq!(shared.references(), 0);
}

#[test]
fn every_list_is_given_back_once() {
    let mut library = Library::full();
    let instance = instance_in(&mut library, "house");
    library.call(instance.add_room("a".to_string()));
    library.call(instance.add_room("b".to_string()));
    assert_eq!(library.list(&instance, instance.get_list_rooms_name()), vec!["a", "b"]);
    assert_eq!(library.count(Operation::FreeStringList), 1);
    assert_eq!(library.released, 2);
    assert_eq!(library.list(&instance, instance.get_list_devices_name("a".to_string())).len(), 0);
    assert_eq!(library.count(Operation::FreeStringList), 2);
    assert_eq!(library.released, 2);
}

#[test]
fn no_result_is_an_empty_answer() {
    let mut library = Library::full();
    let instance = instance_in(&mut library, "house");
    let (names, free) = instance.read_list(None);
    assert_eq!(names, Ok(Vec::new()));
    assert!(free.is_none());
    assert_eq!(instance.read_report(None), Ok(String::new()));
    assert_eq!(
        library.list(&instance, instance.get_list_devices_name("nowhere".to_string())),
        Vec::<String>::new()
    );
    assert_eq!(library.count(Operation::FreeStringList), 0);
}

#[test]
fn malformed_answers_are_invalid_encoding() {
    let mut library = Library::full();
    let instance = instance_in(&mut library, "house");
    let buffer =
        MarshaledBuffer::from_entries(vec![b"ok\0".to_vec(), vec![0xff, 0xfe, 0]]).unwrap();
    let (names, free) = instance.read_list(Some(buffer));
    assert_eq!(names, Err(DecodeError::InvalidEncoding));
    let free = free.unwrap();
    assert_eq!(free.operation, Operation::FreeStringList);
    assert_eq!(free.entry, 0x1000 + 16 * 5);
    assert_eq!(free.list.as_ref().unwrap().count(), 2);
    library.call(free);
    assert_eq!(library.released, 2);
    assert_eq!(instance.read_report(Some(vec![0xc3, 0x28, 0])), Err(DecodeError::InvalidEncoding));
    assert_eq!(instance.read_report(Some("да\0".as_bytes().to_vec())), Ok("да".to_string()));
}

#[test]
fn registry_creates_once_for_each_key() {
    let mut library = Library::full();
    let mut registry = InstanceRegistry::new();
    assert_eq!(registry.len(), 0);
    let mut created = 0;
    for _ in 0..2 {
        let instance = registry
            .get_or_create("s1".to_string(), PATH.to_string(), |path, label| {
                created += 1;
                assert_eq!((path.as_str(), label.as_str()), (PATH, "s1"));
                library.create(path, label)
            })
            .unwrap();
        assert_eq!(instance.state(), Lifecycle::Live);
        let call = instance.get_list_rooms_name();
        assert_eq!(call.handle, 1);
    }
    assert_eq!(created, 1);
    assert_eq!(library.count(Operation::New), 1);
    assert_eq!(registry.len(), 1);
    registry
        .get_or_create("s2".to_string(), PATH.to_string(), |path, label| library.create(path, label))
        .unwrap();
    assert_eq!(registry.len(), 2);
    assert_eq!(library.count(Operation::New), 2);
    assert_eq!(registry.get(&"s2".to_string()).unwrap().report().handle, 2);
    assert_eq!(registry.get(&"s1".to_string()).unwrap().report().handle, 1);
}

#[test]
fn registry_get_of_unknown_key_is_not_found() {
    let mut library = Library::full();
    let mut registry = InstanceRegistry::new();
    assert_eq!(registry.get(&"s1".to_string()).err(), Some(RegistryError::NotFound));
    assert!(!registry.contains(&"s1".to_string()));
    let instance = instance_in(&mut library, "s1");
    assert!(registry.insert("s1".to_string(), instance).is_none());
    assert!(registry.contains(&"s1".to_string()));
    assert!(registry.get(&"s1".to_string()).is_ok());
    assert_eq!(registry.get(&"S1".to_string()).err(), Some(RegistryError::NotFound));
    let second = instance_in(&mut library, "s1");
    let rejected = registry.insert("s1".to_string(), second).unwrap();
    assert_eq!(rejected.report().handle, 2);
    assert_eq!(registry.get(&"s1".to_string()).unwrap().report().handle, 1);
    assert_eq!(registry.len(), 1);
}

#[test]
fn registry_registers_nothing_when_creation_fails() {
    let mut library = Library::without(Operation::Report);
    let mut registry = InstanceRegistry::new();
    let made = registry
        .get_or_create("s1".to_string(), PATH.to_string(), |path, label| library.create(path, label));
    assert_eq!(
        made.err(),
        Some(BridgeError::Symbol(SymbolError::Missing("report".to_string())))
    );
    assert_eq!(registry.len(), 0);
    assert_eq!(registry.get(&"s1".to_string()).err(), Some(RegistryError::NotFound));
}

fn session(
    registry: &mut InstanceRegistry,
    library: &mut Library,
    key: &str,
) -> Result<(), BridgeError> {
    registry
        .get_or_create(key.to_string(), PATH.to_string(), |path, label| library.create(path, label))
        .map(|_| ())
}

fn answer(
    registry: &InstanceRegistry,
    library: &mut Library,
    key: &String,
    call: ForeignCall,
) -> Result<Vec<String>, BridgeError> {
    let buffer = match library.call(call) {
        Reply::List(buffer) => buffer,
        _ => unreachable!(),
    };
    let (names, free) = registry.names(key, buffer);
    if let Some(free) = free {
        library.call(free);
    }
    names
}

#[test]
fn scenario_rooms_devices_and_report() {
    let mut library = Library::full();
    let mut registry = InstanceRegistry::new();
    let s1 = "s1".to_string();
    session(&mut registry, &mut library, "s1").unwrap();

    library.call(registry.add_room(&s1, "Room A".to_string()).unwrap());
    let call = registry.list_rooms(&s1).unwrap();
    assert_eq!(answer(&registry, &mut library, &s1, call), Ok(vec!["Room A".to_string()]));

    let call = registry
        .add_device(&s1, "Room A".to_string(), "Lamp".to_string(), "desc".to_string())
        .unwrap();
    library.call(call);
    let call = registry.list_devices(&s1, "Room A".to_string()).unwrap();
    assert_eq!(answer(&registry, &mut library, &s1, call), Ok(vec!["Lamp".to_string()]));

    let report = match library.call(registry.report(&s1).unwrap()) {
        Reply::Text(buffer) => registry.text(&s1, buffer).unwrap(),
        _ => unreachable!(),
    };
    assert!(report.contains("Room A"));
    assert!(report.contains("Lamp"));
    assert_eq!(
        report,
        "Name: s1,\nRooms:\n[\n{\nName: Room A,\nDevices:\n[\n{\nName: Lamp,\nOn: false,\nDescription: desc,\nPower: 0\n},\n]\n},\n]"
    );

    library.call(registry.remove_device(&s1, "Room A".to_string(), "Lamp".to_string()).unwrap());
    let call = registry.list_devices(&s1, "Room A".to_string()).unwrap();
    assert_eq!(answer(&registry, &mut library, &s1, call), Ok(Vec::new()));

    library.call(registry.remove_room(&s1, "Room A".to_string()).unwrap());
    let call = registry.list_rooms(&s1).unwrap();
    assert_eq!(answer(&registry, &mut library, &s1, call), Ok(Vec::new()));

    assert_eq!(library.count(Operation::New), 1);
    assert_eq!(library.count(Operation::Destroy), 0);
    assert_eq!(library.count(Operation::FreeStringList), 4);
}

#[test]
fn unknown_session_is_not_found_for_every_operation() {
    let mut library = Library::full();
    let mut registry = InstanceRegistry::new();
    session(&mut registry, &mut library, "s1").unwrap();
    let s2 = "s2".to_string();
    let not_found = BridgeError::Registry(RegistryError::NotFound);
    let name = || "x".to_string();
    assert_eq!(registry.add_room(&s2, name()).err(), Some(BridgeError::Registry(RegistryError::NotFound)));
    assert_eq!(registry.remove_room(&s2, name()).err().as_ref(), Some(&not_found));
    assert_eq!(registry.list_rooms(&s2).err().as_ref(), Some(&not_found));
    assert_eq!(registry.add_device(&s2, name(), name(), name()).err().as_ref(), Some(&not_found));
    assert_eq!(registry.remove_device(&s2, name(), name()).err().as_ref(), Some(&not_found));
    assert_eq!(registry.list_devices(&s2, name()).err().as_ref(), Some(&not_found));
    assert_eq!(registry.report(&s2).err().as_ref(), Some(&not_found));
    assert_eq!(registry.text(&s2, Some(b"t\0".to_vec())).err().as_ref(), Some(&not_found));
    let (names, free) = registry.names(&s2, Some(pack(&vec![name()])));
    assert_eq!(names.err().as_ref(), Some(&not_found));
    assert!(free.is_none());
    assert!(library.calls.iter().all(|made| *made == Operation::New));
}

#[test]
fn malformed_answers_of_a_session_are_decode_errors() {
    let mut library = Library::full();
    let mut registry = InstanceRegistry::new();
    session(&mut registry, &mut library, "s1").unwrap();
    let s1 = "s1".to_string();
    let invalid = BridgeError::Decode(DecodeError::InvalidEncoding);
    assert_eq!(registry.text(&s1, Some(vec![0xff, 0])), Err(BridgeError::Decode(DecodeError::InvalidEncoding)));
    assert_eq!(registry.text(&s1, Some(b"fine\0".to_vec())), Ok("fine".to_string()));
    assert_eq!(registry.text(&s1, None), Ok(String::new()));
    let buffer = MarshaledBuffer::from_entries(vec![vec![0xc0, 0x80, 0]]).unwrap();
    let (names, free) = registry.names(&s1, Some(buffer));
    assert_eq!(names, Err(invalid));
    assert_eq!(free.unwrap().operation, Operation::FreeStringList);
    let (names, free) = registry.names(&s1, None);
    assert_eq!(names, Ok(Vec::new()));
    assert!(free.is_none());
}

#[test]
fn missing_rooms_and_devices_are_no_ops() {
    let mut library = Library::full();
    let instance = instance_in(&mut library, "house");
    library.call(instance.remove_room("nowhere".to_string()));
    library.call(instance.remove_device("nowhere".to_string(), "nothing".to_string()));
    library.call(instance.add_test_device_outlet(
        "nowhere".to_string(),
        "Lamp".to_string(),
        "desc".to_string(),
    ));
    library.call(instance.add_room("Room A".to_string()));
    library.call(instance.remove_device("Room A".to_string(), "nothing".to_string()));
    assert_eq!(library.list(&instance, instance.get_list_rooms_name()), vec!["Room A"]);
    assert_eq!(
        library.text(&instance, instance.report()),
        "Name: house,\nRooms:\n[\n{\nName: Room A,\nDevices:\n[\n]\n},\n]"
    );
}

#[test]
fn session_key_is_kept_or_made_fresh() {
    assert_eq!(session_key(Some("kept".to_string())), "kept");
    let first = session_key(None);
    let second = session_key(None);
    assert_ne!(first, second);
    for key in [first, second] {
        assert_eq!(key.chars().count(), SESSION_KEY_LEN);
        assert!(can_encode(&key));
        let groups: Vec<usize> = key.split('-').map(str::len).collect();
        assert_eq!(groups, vec![8, 4, 4, 4, 12]);
        assert!(key.chars().all(|c| c == '-' || c.is_ascii_digit() || ('a'..='f').contains(&c)));
        assert_eq!(key.as_bytes()[14], b'4');
    }
}

#[test]
fn register_settles_what_creating_gave() {
    let mut library = Library::full();
    let mut registry = InstanceRegistry::new();
    let failure = BridgeError::Load(LoadError::NotFound);
    assert_eq!(
        registry.register("s1".to_string(), Err(BridgeError::Load(LoadError::NotFound))).err(),
        Some(failure)
    );
    assert_eq!(registry.len(), 0);
    let made = library.create(PATH.to_string(), "s1".to_string());
    assert_eq!(registry.register("s1".to_string(), made).unwrap().report().handle, 1);
    let again = library.create(PATH.to_string(), "s1".to_string());
    assert_eq!(registry.register("s1".to_string(), again).unwrap().report().handle, 1);
    let kept = registry.register("s1".to_string(), Err(BridgeError::Load(LoadError::InvalidImage)));
    assert_eq!(kept.unwrap().report().handle, 1);
    assert_eq!(registry.len(), 1);
}
