//! A list of values under text keys: no key occurs twice, and what came
//! first stays first.

use crate::text::texts;
use vstd::prelude::*;

verus! {

/// A key occurs in the list.
pub open spec fn holds<V>(entries: Seq<(Seq<char>, V)>, key: Seq<char>) -> bool {
    exists|i: int| 0 <= i < entries.len() && (#[trigger] entries[i]).0 == key
}

/// Where a key occurs in the list, for a key that does.
pub open spec fn place<V>(entries: Seq<(Seq<char>, V)>, key: Seq<char>) -> int {
    choose|i: int| 0 <= i < entries.len() && (#[trigger] entries[i]).0 == key
}

/// No key occurs twice.
pub open spec fn distinct<V>(entries: Seq<(Seq<char>, V)>) -> bool {
    forall|i: int, j: int|
        0 <= i < j < entries.len() ==> (#[trigger] entries[i]).0 != (#[trigger] entries[j]).0
}

/// The list after `value` was put under `key`: in the place of what was
/// under the key, or at the end where the key is new.
pub open spec fn put<V>(entries: Seq<(Seq<char>, V)>, key: Seq<char>, value: V) -> Seq<
    (Seq<char>, V),
> {
    if holds(entries, key) {
        entries.update(place(entries, key), (key, value))
    } else {
        entries.push((key, value))
    }
}

/// The list without what was under `key`.
pub open spec fn cut<V>(entries: Seq<(Seq<char>, V)>, key: Seq<char>) -> Seq<(Seq<char>, V)> {
    if holds(entries, key) {
        entries.remove(place(entries, key))
    } else {
        entries
    }
}

/// The keys of the list, in order.
pub open spec fn keys_of<V>(entries: Seq<(Seq<char>, V)>) -> Seq<Seq<char>> {
    Seq::new(entries.len(), |i: int| entries[i].0)
}

/// A key is asked for: every key is where nothing is named.
pub open spec fn is_wanted(key: Seq<char>, wanted: Option<Seq<Seq<char>>>) -> bool {
    match wanted {
        Some(named) => named.contains(key),
        None => true,
    }
}

/// The values whose keys are asked for, in the order of the list.
pub open spec fn picked<V>(entries: Seq<(Seq<char>, V)>, wanted: Option<Seq<Seq<char>>>) -> Seq<V>
    decreases entries.len(),
{
    if entries.len() == 0 {
        Seq::empty()
    } else {
        let rest = picked(entries.drop_last(), wanted);
        if is_wanted(entries.last().0, wanted) {
            rest.push(entries.last().1)
        } else {
            rest
        }
    }
}

/// The keys that a list of names asks for.
pub open spec fn wanted_keys(named: Option<Vec<String>>) -> Option<Seq<Seq<char>>> {
    match named {
        Some(list) => Some(texts(list@)),
        None => None,
    }
}

/// What the references of a list point to.
pub open spec fn targets<V>(refs: Seq<&V>) -> Seq<V> {
    Seq::new(refs.len(), |i: int| *refs[i])
}

/// Where nothing is named, every value is picked.
pub proof fn lemma_picked_all<V>(entries: Seq<(Seq<char>, V)>)
    ensures
        picked(entries, None).len() == entries.len(),
        forall|i: int| 0 <= i < entries.len() ==> picked(entries, None)[i] == entries[i].1,
    decreases entries.len(),
{
    if entries.len() > 0 {
        lemma_picked_all(entries.drop_last());
    }
}

/// Whether `key` is among the names of `list`.
pub fn is_listed(list: &Vec<String>, key: &String) -> (listed: bool)
    ensures
        listed == texts(list@).contains(key@),
{
    let mut i: usize = 0;
    while i < list.len()
        invariant
            i <= list.len(),
            forall|j: int| 0 <= j < i ==> texts(list@)[j] != key@,
        decreases list.len() - i,
    {
        if list[i] == *key {
            proof {
                assert(texts(list@)[i as int] == key@);
            }
            return true;
        }
        i += 1;
    }
    false
}

/// In a list without repeated keys, a key occurs at one place only.
pub proof fn lemma_place<V>(entries: Seq<(Seq<char>, V)>, key: Seq<char>, i: int)
    requires
        distinct(entries),
        0 <= i < entries.len(),
        entries[i].0 == key,
    ensures
        holds(entries, key),
        place(entries, key) == i,
{
    let p = place(entries, key);
    if p < i {
        assert(entries[p].0 != entries[i].0);
    } else if i < p {
        assert(entries[i].0 != entries[p].0);
    }
}

/// Putting keeps the keys apart, and what was put is found under its key.
pub proof fn lemma_put<V>(entries: Seq<(Seq<char>, V)>, key: Seq<char>, value: V)
    requires
        distinct(entries),
    ensures
        distinct(put(entries, key, value)),
        holds(put(entries, key, value), key),
        put(entries, key, value)[place(put(entries, key, value), key)].1 == value,
        forall|other: Seq<char>|
            other != key ==> holds(put(entries, key, value), other) == holds(entries, other),
        forall|other: Seq<char>|
            other != key && holds(entries, other) ==> #[trigger] put(entries, key, value)[place(
                put(entries, key, value),
                other,
            )] == entries[place(entries, other)],
{
    let after = put(entries, key, value);
    if holds(entries, key) {
        let p = place(entries, key);
        assert forall|i: int, j: int| 0 <= i < j < after.len() implies (#[trigger] after[i]).0 != (
        #[trigger] after[j]).0 by {
            assert(entries[i].0 != entries[j].0);
        }
        lemma_place(after, key, p);
    } else {
        assert forall|i: int, j: int| 0 <= i < j < after.len() implies (#[trigger] after[i]).0 != (
        #[trigger] after[j]).0 by {
            if j < entries.len() {
                assert(entries[i].0 != entries[j].0);
            } else {
                assert(entries[i].0 != key);
            }
        }
        lemma_place(after, key, entries.len() as int);
    }
    assert forall|other: Seq<char>| other != key implies holds(after, other) == holds(
        entries,
        other,
    ) by {
        if holds(entries, other) {
            let i = place(entries, other);
            assert(after[i].0 == other);
        }
        if holds(after, other) {
            let i = place(after, other);
            assert(entries[i].0 == other);
        }
    }    assert forall|other: Seq<char>| other != key && holds(entries, other) implies #[trigger] after[place(
        after,
        other,
    )] == entries[place(entries, other)] by {
        let i = place(entries, other);
        assert(after[i] == entries[i]);
        lemma_place(after, other, i);
    }
}

/// Cutting keeps the keys apart, and the key is gone.
pub proof fn lemma_cut<V>(entries: Seq<(Seq<char>, V)>, key: Seq<char>)
    requires
        distinct(entries),
    ensures
        distinct(cut(entries, key)),
        !holds(cut(entries, key), key),
        forall|other: Seq<char>| other != key ==> holds(cut(entries, key), other) == holds(entries, other),
{
    let after = cut(entries, key);
    if holds(entries, key) {
        let p = place(entries, key);
        assert forall|i: int, j: int| 0 <= i < j < after.len() implies (#[trigger] after[i]).0 != (
        #[trigger] after[j]).0 by {
            let a = if i < p {
                i
            } else {
                i + 1
            };
            let b = if j < p {
                j
            } else {
                j + 1
            };
            assert(entries[a].0 != entries[b].0);
        }
        if holds(after, key) {
            let i = place(after, key);
            let a = if i < p {
                i
            } else {
                i + 1
            };
            assert(after[i] == entries[a]);
            lemma_place(entries, key, a);
        }
        assert forall|other: Seq<char>| other != key implies holds(after, other) == holds(
            entries,
            other,
        ) by {
            if holds(entries, other) {
                let i = place(entries, other);
                let a = if i < p {
                    i
                } else {
                    i - 1
                };
                assert(after[a] == entries[i]);
            }
            if holds(after, other) {
                let i = place(after, other);
                let a = if i < p {
                    i
                } else {
                    i + 1
                };
                assert(after[i] == entries[a]);
            }
        }
    }
}

/// Values under text keys, in the order in which their keys came.
#[derive(Debug)]
pub struct Keyed<V> {
    entries: Vec<(String, V)>,
}

impl<V> Keyed<V> {
    /// The keys and values, in order.
    pub closed spec fn view(&self) -> Seq<(Seq<char>, V)> {
        Seq::new(self.entries@.len(), |i: int| (self.entries@[i].0@, self.entries@[i].1))
    }

    /// No key occurs twice.
    pub open spec fn wf(&self) -> bool {
        distinct(self@)
    }

    /// An empty list.
    pub fn new() -> (list: Keyed<V>)
        ensures
            list.wf(),
            list@ == Seq::<(Seq<char>, V)>::empty(),
    {
        let list = Keyed { entries: Vec::new() };
        proof {
            assert(list@ =~= Seq::<(Seq<char>, V)>::empty());
        }
        list
    }

    /// The number of entries.
    pub fn len(&self) -> (n: usize)
        ensures
            n == self@.len(),
    {
        self.entries.len()
    }

    /// The key of the entry at `index`.
    pub fn key(&self, index: usize) -> (key: &String)
        requires
            index < self@.len(),
        ensures
            key@ == self@[index as int].0,
    {
        &self.entries[index].0
    }

    /// The value of the entry at `index`.
    pub fn value(&self, index: usize) -> (value: &V)
        requires
            index < self@.len(),
        ensures
            *value == self@[index as int].1,
    {
        &self.entries[index].1
    }

    /// The value of the entry at `index`, to be changed in its place. The
    /// key stays.
    pub fn value_mut(&mut self, index: usize) -> (value: &mut V)
        requires
            index < old(self)@.len(),
        ensures
            *value == old(self)@[index as int].1,
            final(self)@ == old(self)@.update(
                index as int,
                (old(self)@[index as int].0, *final(value)),
            ),
    {
        &mut self.entries[index].1
    }

    /// Where `key` occurs, if it does.
    pub fn position(&self, key: &String) -> (found: Option<usize>)
        requires
            self.wf(),
        ensures
            found is Some <==> holds(self@, key@),
            found matches Some(i) ==> i == place(self@, key@) && i < self@.len() && self@[i as int].0
                == key@,
    {
        let mut i: usize = 0;
        while i < self.entries.len()
            invariant
                self.wf(),
                i <= self.entries@.len(),
                forall|j: int| 0 <= j < i ==> (#[trigger] self@[j]).0 != key@,
            decreases self.entries@.len() - i,
        {
            if self.entries[i].0 == *key {
                proof {
                    assert(self@[i as int].0 == key@);
                    lemma_place(self@, key@, i as int);
                }
                return Some(i);
            }
            proof {
                assert(self@[i as int].0 == self.entries@[i as int].0@);
            }
            i += 1;
        }
        None
    }

    /// The values whose keys `wanted` names, in the order of the list; all
    /// of them where it names nothing.
    pub fn pick(&self, wanted: &Option<Vec<String>>) -> (found: Vec<&V>)
        ensures
            targets(found@) == picked(self@, wanted_keys(*wanted)),
            *wanted is None ==> found@.len() == self@.len(),
    {
        proof {
            lemma_picked_all(self@);
        }
        let mut found: Vec<&V> = Vec::new();
        let mut i: usize = 0;
        proof {
            assert(self@.subrange(0, 0) =~= Seq::<(Seq<char>, V)>::empty());
            assert(targets(found@) =~= picked(self@.subrange(0, 0), wanted_keys(*wanted)));
        }
        while i < self.entries.len()
            invariant
                i <= self.entries@.len(),
                targets(found@) == picked(self@.subrange(0, i as int), wanted_keys(*wanted)),
            decreases self.entries@.len() - i,
        {
            let ghost before = self@.subrange(0, i as int);
            let ghost after = self@.subrange(0, i as int + 1);
            let ghost held = targets(found@);
            let take = match wanted {
                Some(list) => is_listed(list, &self.entries[i].0),
                None => true,
            };
            proof {
                assert(after.drop_last() =~= before);
                assert(after.last() == self@[i as int]);
                assert(take == is_wanted(after.last().0, wanted_keys(*wanted)));
            }
            if take {
                found.push(&self.entries[i].1);
                proof {
                    assert(targets(found@) =~= held.push(self@[i as int].1));
                }
            }
            i += 1;
        }
        proof {
            assert(self@.subrange(0, self@.len() as int) =~= self@);
        }
        found
    }

    /// The keys, in order.
    pub fn keys(&self) -> (keys: Vec<String>)
        ensures
            texts(keys@) == keys_of(self@),
    {
        let mut keys: Vec<String> = Vec::new();
        let mut i: usize = 0;
        while i < self.entries.len()
            invariant
                i <= self.entries@.len(),
                keys@.len() == i,
                forall|j: int| 0 <= j < i ==> (#[trigger] keys@[j])@ == self@[j].0,
            decreases self.entries@.len() - i,
        {
            keys.push(self.entries[i].0.clone());
            i += 1;
        }
        proof {
            assert(texts(keys@) =~= keys_of(self@));
        }
        keys
    }

    /// Puts `value` under `key`: in the place of what was under the key,
    /// which is given back, or at the end where the key is new.
    pub fn insert(&mut self, key: String, value: V) -> (former: Option<V>)
        requires
            old(self).wf(),
        ensures
            final(self).wf(),
            final(self)@ == put(old(self)@, key@, value),
            former is Some <==> holds(old(self)@, key@),
            former matches Some(v) ==> v == old(self)@[place(old(self)@, key@)].1,
    {
        proof {
            lemma_put(self@, key@, value);
        }
        match self.position(&key) {
            Some(i) => {
                let (_, former) = self.entries.remove(i);
                self.entries.insert(i, (key, value));
                proof {
                    assert(self@ =~= put(old(self)@, key@, value));
                }
                Some(former)
            },
            None => {
                self.entries.push((key, value));
                proof {
                    assert(self@ =~= put(old(self)@, key@, value));
                }
                None
            },
        }
    }

    /// Takes out what is under `key` and gives it back, if there is
    /// anything.
    pub fn remove(&mut self, key: &String) -> (former: Option<V>)
        requires
            old(self).wf(),
        ensures
            final(self).wf(),
            final(self)@ == cut(old(self)@, key@),
            former is Some <==> holds(old(self)@, key@),
            former matches Some(v) ==> v == old(self)@[place(old(self)@, key@)].1,
    {
        proof {
            lemma_cut(self@, key@);
        }
        match self.position(key) {
            Some(i) => {
                let (_, former) = self.entries.remove(i);
                proof {
                    assert(self@ =~= cut(old(self)@, key@));
                }
                Some(former)
            },
            None => None,
        }
    }

    /// Puts `value` in the place of the value at `index`, and gives the
    /// former value back. The key stays.
    pub fn replace(&mut self, index: usize, value: V) -> (former: V)
        requires
            old(self).wf(),
            index < old(self)@.len(),
        ensures
            final(self).wf(),
            final(self)@ == old(self)@.update(
                index as int,
                (old(self)@[index as int].0, value),
            ),
            former == old(self)@[index as int].1,
    {
        let (key, former) = self.entries.remove(index);
        self.entries.insert(index, (key, value));
        proof {
            assert(self@ =~= old(self)@.update(
                index as int,
                (old(self)@[index as int].0, value),
            ));
            assert forall|i: int, j: int| 0 <= i < j < self@.len() implies (#[trigger] self@[i]).0
                != (#[trigger] self@[j]).0 by {
                assert(old(self)@[i].0 != old(self)@[j].0);
            }
        }
        former
    }
}

} // verus!
