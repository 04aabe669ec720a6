//! The instances of a process, one for each session key.

use crate::bridge::{ForeignCall, InstanceModel, SmartHouseLib};
use crate::buffer::{all_decodable, spec_unpack, MarshaledBuffer};
use crate::codec::{is_c_string, is_marshalable, spec_decode, spec_encode, DecodeError};
use crate::ident::{
    fresh_id, id_text, id_to_string, is_random_id, lemma_id_text_is_marshalable,
};
use crate::error::{BridgeError, RegistryError};
use crate::keyed::{holds, lemma_place, lemma_put, place, Keyed};
use crate::symbols::Operation;
use crate::text::texts;
use vstd::prelude::*;

verus! {

/// The number of characters of a fresh session key.
pub const SESSION_KEY_LEN: usize = 36;

/// A key for a new session: the text of a fresh random identifier.
fn fresh_key() -> (key: String)
    ensures
        key@.len() == SESSION_KEY_LEN,
        is_marshalable(key@),
        exists|id: u128| is_random_id(id) && key@ == id_text(id),
{
    let id = fresh_id();
    proof {
        lemma_id_text_is_marshalable(id);
    }
    id_to_string(id)
}

/// The key of a session: the one that the session has stored, or a fresh
/// one where it has none yet.
pub fn session_key(stored: Option<String>) -> (key: String)
    ensures
        stored matches Some(k) ==> key == k,
        stored is None ==> key@.len() == SESSION_KEY_LEN && is_marshalable(key@) && exists|
            id: u128,
        | is_random_id(id) && key@ == id_text(id),
{
    match stored {
        Some(key) => key,
        None => fresh_key(),
    }
}

/// What `get_or_create` makes of a registry and gives for `key`, where
/// creating, if it comes to that, yields `made`: nothing where it fails.
pub open spec fn spec_get_or_create(
    registry: Map<Seq<char>, InstanceModel>,
    key: Seq<char>,
    made: Option<InstanceModel>,
) -> (Map<Seq<char>, InstanceModel>, Option<InstanceModel>) {
    if registry.dom().contains(key) {
        (registry, Some(registry[key]))
    } else {
        match made {
            Some(m) => (registry.insert(key, m), Some(m)),
            None => (registry, None),
        }
    }
}

/// `get_or_create` has to create for `key`.
pub open spec fn creates(registry: Map<Seq<char>, InstanceModel>, key: Seq<char>) -> bool {
    !registry.dom().contains(key)
}

/// What was made, if anything.
pub open spec fn made_model(made: Result<SmartHouseLib, BridgeError>) -> Option<InstanceModel> {
    match made {
        Ok(m) => Some(m@),
        Err(_) => None,
    }
}

/// What was given, if anything.
pub open spec fn given_model(given: Result<&SmartHouseLib, BridgeError>) -> Option<InstanceModel> {
    match given {
        Ok(m) => Some(m@),
        Err(_) => None,
    }
}

/// After `get_or_create` has given an instance for a key, asking again for
/// the same key creates nothing, leaves the registry as it is and gives the
/// same instance, whatever creating would yield.
pub proof fn lemma_get_or_create_idempotent(
    registry: Map<Seq<char>, InstanceModel>,
    key: Seq<char>,
    first: Option<InstanceModel>,
    second: Option<InstanceModel>,
)
    requires
        spec_get_or_create(registry, key, first).1 is Some,
    ensures
        !creates(spec_get_or_create(registry, key, first).0, key),
        spec_get_or_create(spec_get_or_create(registry, key, first).0, key, second)
            == spec_get_or_create(registry, key, first),
{
    let after = spec_get_or_create(registry, key, first);
    if !registry.dom().contains(key) {
        assert(after.0 == registry.insert(key, first->0));
    }
}

/// Asking for one key leaves what is registered under every other key.
pub proof fn lemma_get_or_create_keeps_others(
    registry: Map<Seq<char>, InstanceModel>,
    key: Seq<char>,
    made: Option<InstanceModel>,
    other: Seq<char>,
)
    requires
        other != key,
    ensures
        spec_get_or_create(registry, key, made).0.dom().contains(other)
            == registry.dom().contains(other),
        registry.dom().contains(other) ==> spec_get_or_create(registry, key, made).0[other]
            == registry[other],
{
}

/// The instances by session key. A key has at most one instance; entries
/// come lazily and are never taken out here.
#[derive(Debug)]
pub struct InstanceRegistry {
    instances: Keyed<SmartHouseLib>,
}

impl InstanceRegistry {
    /// The instances by session key.
    pub closed spec fn view(&self) -> Map<Seq<char>, InstanceModel> {
        Map::new(
            |key: Seq<char>| holds(self.instances@, key),
            |key: Seq<char>| self.instances@[place(self.instances@, key)].1@,
        )
    }

    /// No key occurs twice, and every instance is sound and live.
    pub closed spec fn wf(&self) -> bool {
        &&& self.instances.wf()
        &&& forall|i: int|
            0 <= i < self.instances@.len() ==> (#[trigger] self.instances@[i]).1.wf()
                && self.instances@[i].1.is_live()
    }

    /// The number of instances.
    pub closed spec fn spec_len(&self) -> nat {
        self.instances@.len()
    }

    /// A registry without instances.
    pub fn new() -> (registry: InstanceRegistry)
        ensures
            registry.wf(),
            registry@ == Map::<Seq<char>, InstanceModel>::empty(),
            registry.spec_len() == 0,
    {
        let registry = InstanceRegistry { instances: Keyed::new() };
        proof {
            assert(registry@ =~= Map::<Seq<char>, InstanceModel>::empty());
        }
        registry
    }

    /// The number of instances.
    pub fn len(&self) -> (n: usize)
        ensures
            n == self.spec_len(),
    {
        self.instances.len()
    }

    /// Whether an instance is registered under `session_key`.
    pub fn contains(&self, session_key: &String) -> (found: bool)
        requires
            self.wf(),
        ensures
            found == self@.dom().contains(session_key@),
    {
        self.instances.position(session_key).is_some()
    }

    /// The instance registered under `session_key`, or `NotFound` where
    /// there is none.
    pub fn get(&self, session_key: &String) -> (instance: Result<&SmartHouseLib, RegistryError>)
        requires
            self.wf(),
        ensures
            instance is Ok <==> self@.dom().contains(session_key@),
            instance matches Ok(i) ==> i@ == self@[session_key@] && i.wf() && i.is_live(),
            instance matches Err(e) ==> e == RegistryError::NotFound,
    {
        match self.instances.position(session_key) {
            Some(i) => Ok(self.instances.value(i)),
            None => Err(RegistryError::NotFound),
        }
    }

    fn append(&mut self, session_key: String, instance: SmartHouseLib) -> (place: usize)
        requires
            old(self).wf(),
            instance.wf(),
            instance.is_live(),
            !old(self)@.dom().contains(session_key@),
        ensures
            final(self).wf(),
            final(self)@ == old(self)@.insert(session_key@, instance@),
            final(self).spec_len() == old(self).spec_len() + 1,
            place < final(self).instances@.len(),
            final(self).instances@[place as int].1 == instance,
    {
        let ghost before = self.instances@;
        let place = self.instances.len();
        proof {
            lemma_put(before, session_key@, instance);
        }
        let _ = self.instances.insert(session_key, instance);
        proof {
            let after = self.instances@;
            assert(after == before.push((session_key@, instance)));
            assert forall|i: int| 0 <= i < after.len() implies (#[trigger] after[i]).1.wf()
                && after[i].1.is_live() by {
                if i < before.len() {
                    assert(after[i] == before[i]);
                }
            }
            lemma_place(after, session_key@, place as int);
            assert(self@ =~= old(self)@.insert(session_key@, instance@));
        }
        place
    }

    /// Registers `instance` under `session_key` where the key is free.
    /// Where the key is taken, the registry stays as it is and the instance
    /// comes back.
    pub fn insert(&mut self, session_key: String, instance: SmartHouseLib) -> (rejected: Option<
        SmartHouseLib,
    >)
        requires
            old(self).wf(),
            instance.wf(),
            instance.is_live(),
        ensures
            final(self).wf(),
            rejected is Some <==> old(self)@.dom().contains(session_key@),
            rejected matches Some(i) ==> i == instance && final(self)@ == old(self)@,
            rejected is None ==> final(self)@ == old(self)@.insert(session_key@, instance@),
            rejected is None ==> final(self).spec_len() == old(self).spec_len() + 1,
            rejected is Some ==> final(self).spec_len() == old(self).spec_len(),
    {
        if self.contains(&session_key) {
            Some(instance)
        } else {
            let _ = self.append(session_key, instance);
            None
        }
    }

    /// Settles what creating gave for `session_key`: where the key is still
    /// free, an instance that was made is registered under it and given,
    /// and a failure is passed on with nothing registered; where the key is
    /// taken, the instance under it is given and what was made is let go.
    pub fn register(&mut self, session_key: String, made: Result<SmartHouseLib, BridgeError>) -> (
    instance: Result<&SmartHouseLib, BridgeError>)
        requires
            old(self).wf(),
            made matches Ok(m) ==> m.wf() && m.is_live(),
        ensures
            final(self).wf(),
            spec_get_or_create(old(self)@, session_key@, made_model(made)) == (
                final(self)@,
                given_model(instance),
            ),
            instance matches Ok(i) ==> i.wf() && i.is_live() && final(self)@.dom().contains(
                session_key@,
            ) && final(self)@[session_key@] == i@,
            instance matches Err(e) ==> made == Err::<SmartHouseLib, BridgeError>(e),
    {
        match self.instances.position(&session_key) {
            Some(i) => Ok(self.instances.value(i)),
            None => match made {
                Ok(m) => {
                    let place = self.append(session_key, m);
                    Ok(self.instances.value(place))
                },
                Err(e) => Err(e),
            },
        }
    }

    /// The instance registered under `session_key`. Where there is none
    /// yet, `create` is called, once, with the library path and the session
    /// key as the label of the new object, and what it gives is settled by
    /// `register`. Where there is one, `create` is not called.
    pub fn get_or_create<F>(
        &mut self,
        session_key: String,
        library_path: String,
        create: F,
    ) -> (instance: Result<&SmartHouseLib, BridgeError>) where
        F: FnOnce(String, String) -> Result<SmartHouseLib, BridgeError>,

        requires
            old(self).wf(),
            !old(self)@.dom().contains(session_key@) ==> call_requires(
                create,
                (library_path, session_key),
            ),
            forall|made: Result<SmartHouseLib, BridgeError>|
                call_ensures(create, (library_path, session_key), made) ==> (made matches Ok(m)
                    ==> m.wf() && m.is_live()),
        ensures
            final(self).wf(),
            !creates(old(self)@, session_key@) ==> final(self)@ == old(self)@ && (
            instance matches Ok(i) && i@ == old(self)@[session_key@]),
            !creates(old(self)@, session_key@) ==> forall|made: Option<InstanceModel>|
                spec_get_or_create(old(self)@, session_key@, made) == (
                    final(self)@,
                    given_model(instance),
                ),
            creates(old(self)@, session_key@) ==> exists|made: Result<SmartHouseLib, BridgeError>|
                call_ensures(create, (library_path, session_key), made) && spec_get_or_create(
                    old(self)@,
                    session_key@,
                    made_model(made),
                ) == (final(self)@, given_model(instance)) && (instance matches Err(e) ==> made
                    == Err::<SmartHouseLib, BridgeError>(e)),
            instance matches Ok(i) ==> i.wf() && i.is_live() && final(self)@.dom().contains(
                session_key@,
            ) && final(self)@[session_key@] == i@,
    {
        match self.instances.position(&session_key) {
            Some(i) => Ok(self.instances.value(i)),
            None => {
                let label = session_key.clone();
                let made = create(library_path, label);
                self.register(session_key, made)
            },
        }
    }

    fn instance(&self, session_key: &String) -> (instance: Result<&SmartHouseLib, BridgeError>)
        requires
            self.wf(),
        ensures
            instance is Ok <==> self@.dom().contains(session_key@),
            instance matches Ok(i) ==> i@ == self@[session_key@] && i.wf() && i.is_live(),
            instance matches Err(e) ==> e == BridgeError::Registry(RegistryError::NotFound),
    {
        match self.get(session_key) {
            Ok(instance) => Ok(instance),
            Err(e) => Err(BridgeError::Registry(e)),
        }
    }

    /// The call that adds the room `name` to the house of the session, or
    /// `NotFound` where the session has none.
    pub fn add_room(&self, session_key: &String, name: String) -> (call: Result<
        ForeignCall,
        BridgeError,
    >)
        requires
            self.wf(),
            is_marshalable(name@),
        ensures
            call is Ok <==> self@.dom().contains(session_key@),
            call matches Ok(c) ==> c.wf() && c@ == self@[session_key@].call(
                Operation::AddRoom,
                seq![spec_encode(name@)],
            ),
            call matches Err(e) ==> e == BridgeError::Registry(RegistryError::NotFound),
    {
        Ok(self.instance(session_key)?.add_room(name))
    }

    /// The call that removes the room `name` from the house of the session,
    /// or `NotFound` where the session has none.
    pub fn remove_room(&self, session_key: &String, name: String) -> (call: Result<
        ForeignCall,
        BridgeError,
    >)
        requires
            self.wf(),
            is_marshalable(name@),
        ensures
            call is Ok <==> self@.dom().contains(session_key@),
            call matches Ok(c) ==> c.wf() && c@ == self@[session_key@].call(
                Operation::RemoveRoom,
                seq![spec_encode(name@)],
            ),
            call matches Err(e) ==> e == BridgeError::Registry(RegistryError::NotFound),
    {
        Ok(self.instance(session_key)?.remove_room(name))
    }

    /// The call that asks the house of the session for the names of its
    /// rooms, or `NotFound` where the session has none. What the call gives
    /// goes to `names`.
    pub fn list_rooms(&self, session_key: &String) -> (call: Result<ForeignCall, BridgeError>)
        requires
            self.wf(),
        ensures
            call is Ok <==> self@.dom().contains(session_key@),
            call matches Ok(c) ==> c.wf() && c@ == self@[session_key@].call(
                Operation::GetListRoomsName,
                Seq::empty(),
            ),
            call matches Err(e) ==> e == BridgeError::Registry(RegistryError::NotFound),
    {
        Ok(self.instance(session_key)?.get_list_rooms_name())
    }

    /// The call that puts an outlet `name`, described by `description`, into
    /// the room `room` of the house of the session, or `NotFound` where the
    /// session has none.
    pub fn add_device(
        &self,
        session_key: &String,
        room: String,
        name: String,
        description: String,
    ) -> (call: Result<ForeignCall, BridgeError>)
        requires
            self.wf(),
            is_marshalable(room@),
            is_marshalable(name@),
            is_marshalable(description@),
        ensures
            call is Ok <==> self@.dom().contains(session_key@),
            call matches Ok(c) ==> c.wf() && c@ == self@[session_key@].call(
                Operation::AddTestDeviceOutlet,
                seq![spec_encode(room@), spec_encode(name@), spec_encode(description@)],
            ),
            call matches Err(e) ==> e == BridgeError::Registry(RegistryError::NotFound),
    {
        Ok(self.instance(session_key)?.add_test_device_outlet(room, name, description))
    }

    /// The call that removes the device `name` from the room `room` of the
    /// house of the session, or `NotFound` where the session has none.
    pub fn remove_device(&self, session_key: &String, room: String, name: String) -> (call: Result<
        ForeignCall,
        BridgeError,
    >)
        requires
            self.wf(),
            is_marshalable(room@),
            is_marshalable(name@),
        ensures
            call is Ok <==> self@.dom().contains(session_key@),
            call matches Ok(c) ==> c.wf() && c@ == self@[session_key@].call(
                Operation::RemoveDevice,
                seq![spec_encode(room@), spec_encode(name@)],
            ),
            call matches Err(e) ==> e == BridgeError::Registry(RegistryError::NotFound),
    {
        Ok(self.instance(session_key)?.remove_device(room, name))
    }

    /// The call that asks the house of the session for the names of the
    /// devices of the room `room`, or `NotFound` where the session has none.
    /// What the call gives goes to `names`.
    pub fn list_devices(&self, session_key: &String, room: String) -> (call: Result<
        ForeignCall,
        BridgeError,
    >)
        requires
            self.wf(),
            is_marshalable(room@),
        ensures
            call is Ok <==> self@.dom().contains(session_key@),
            call matches Ok(c) ==> c.wf() && c@ == self@[session_key@].call(
                Operation::GetListDevicesName,
                seq![spec_encode(room@)],
            ),
            call matches Err(e) ==> e == BridgeError::Registry(RegistryError::NotFound),
    {
        Ok(self.instance(session_key)?.get_list_devices_name(room))
    }

    /// The call that asks the house of the session for its report, or
    /// `NotFound` where the session has none. What the call gives goes to
    /// `text`.
    pub fn report(&self, session_key: &String) -> (call: Result<ForeignCall, BridgeError>)
        requires
            self.wf(),
        ensures
            call is Ok <==> self@.dom().contains(session_key@),
            call matches Ok(c) ==> c.wf() && c@ == self@[session_key@].call(
                Operation::Report,
                Seq::empty(),
            ),
            call matches Err(e) ==> e == BridgeError::Registry(RegistryError::NotFound),
    {
        Ok(self.instance(session_key)?.report())
    }

    /// The names in the array that a list call on the house of the session
    /// gave, and the call that gives the array back. Where the session has
    /// no house the array is dropped with `NotFound` and no call is issued;
    /// else the call is issued whether or not the array decodes, and an
    /// array that does not is `InvalidEncoding`. No array at all is an empty
    /// list.
    pub fn names(&self, session_key: &String, buffer: Option<MarshaledBuffer>) -> (outcome: (
        Result<Vec<String>, BridgeError>,
        Option<ForeignCall>,
    ))
        requires
            self.wf(),
            buffer matches Some(b) ==> b.wf(),
        ensures
            !self@.dom().contains(session_key@) ==> outcome.1 is None && outcome.0 == Err::<
                Vec<String>,
                BridgeError,
            >(BridgeError::Registry(RegistryError::NotFound)),
            self@.dom().contains(session_key@) && buffer is None ==> outcome.1 is None && (
            outcome.0 matches Ok(v) && v@.len() == 0),
            self@.dom().contains(session_key@) ==> (buffer matches Some(b) ==> {
                &&& outcome.0 is Ok <==> all_decodable(b@)
                &&& outcome.0 matches Ok(v) ==> spec_unpack(b@) == Ok::<
                    Seq<Seq<char>>,
                    DecodeError,
                >(texts(v@))
                &&& outcome.0 matches Err(e) ==> e == BridgeError::Decode(
                    DecodeError::InvalidEncoding,
                )
                &&& outcome.1 matches Some(call) && call@ == self@[session_key@].free(b@)
                    && call.wf()
            }),
    {
        match self.instance(session_key) {
            Err(e) => (Err(e), None),
            Ok(instance) => {
                let (list, free) = instance.read_list(buffer);
                match list {
                    Ok(names) => (Ok(names), free),
                    Err(e) => (Err(BridgeError::Decode(e)), free),
                }
            },
        }
    }

    /// The text in the buffer that the report call on the house of the
    /// session gave. Where the session has no house this is `NotFound`; a
    /// buffer that does not decode is `InvalidEncoding`; no buffer at all is
    /// the empty text.
    pub fn text(&self, session_key: &String, buffer: Option<Vec<u8>>) -> (text: Result<
        String,
        BridgeError,
    >)
        requires
            self.wf(),
            buffer matches Some(b) ==> is_c_string(b@),
        ensures
            !self@.dom().contains(session_key@) ==> text == Err::<String, BridgeError>(
                BridgeError::Registry(RegistryError::NotFound),
            ),
            self@.dom().contains(session_key@) && buffer is None ==> (text matches Ok(s)
                && s@.len() == 0),
            self@.dom().contains(session_key@) ==> (buffer matches Some(b) ==> {
                &&& text matches Ok(s) ==> spec_decode(b@) == Ok::<Seq<char>, DecodeError>(s@)
                &&& text matches Err(e) ==> e == BridgeError::Decode(DecodeError::InvalidEncoding)
                    && spec_decode(b@) is Err
            }),
    {
        match self.instance(session_key) {
            Err(e) => Err(e),
            Ok(instance) => match instance.read_report(buffer) {
                Ok(text) => Ok(text),
                Err(e) => Err(BridgeError::Decode(e)),
            },
        }
    }
}

} // verus!
