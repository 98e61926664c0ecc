//! The heap of shared-mutable cells.
//!
//! Every compound value is a handle (a plain index) into this arena, so
//! several values holding the same index observe the same mutation, and
//! identity is index equality. The arena only grows: a handle once issued
//! stays valid for the life of the heap. Cyclic structures are representable
//! and are not reclaimed.
use vstd::prelude::*;
use crate::error::VmError;
use crate::value::{Class, Object, Value};
use crate::vm::Coroutine;

verus! {

/// The content of one shared-mutable cell.
pub enum Slot {
    /// A fixed-length sequence; also the field-value store of an object.
    Tuple(Vec<Value>),
    /// A growable sequence.
    Vec(Vec<Value>),
    /// A string-keyed mapping: insertion-ordered entries with unique keys.
    Mapping(Vec<(String, Value)>),
    /// A class descriptor.
    Class(Class),
    /// An object instance.
    Object(Object),
    /// A boxed indirection around one value: the primitive that gives a
    /// copy-by-value register reference semantics.
    Box(Value),
    /// An independent nested machine instance.
    Coroutine(Coroutine),
    /// An opaque host-managed lazy iterator, named by a host-chosen number.
    Iter(u64),
    /// A global-name table shared by every frame of the machines that hold it.
    Globals(Vec<(String, Value)>),
}

/// The sequence items of a tuple or sequence cell.
pub open spec fn items_of(s: Slot) -> Seq<Value> {
    match s {
        Slot::Tuple(v) => v@,
        Slot::Vec(v) => v@,
        _ => Seq::empty(),
    }
}

/// The entries of a mapping or global-table cell.
pub open spec fn entries_of(s: Slot) -> Seq<(String, Value)> {
    match s {
        Slot::Mapping(e) => e@,
        Slot::Globals(e) => e@,
        _ => Seq::empty(),
    }
}

/// The index of the first entry whose key reads as `key`, if any.
pub open spec fn assoc_index(e: Seq<(String, Value)>, key: Seq<char>) -> Option<int>
    decreases e.len(),
{
    if e.len() == 0 {
        None
    } else if e[0].0@ == key {
        Some(0)
    } else {
        match assoc_index(e.drop_first(), key) {
            Some(i) => Some(i + 1),
            None => None,
        }
    }
}

/// The value bound to `key`, if any: first match wins, and the insert
/// operation keeps keys unique.
pub open spec fn assoc_get(e: Seq<(String, Value)>, key: Seq<char>) -> Option<Value> {
    match assoc_index(e, key) {
        Some(i) => Some(e[i].1),
        None => None,
    }
}

/// `assoc_index` names a real in-range entry with the key, and the first one.
pub proof fn lemma_assoc_index_props(e: Seq<(String, Value)>, key: Seq<char>)
    ensures
        match assoc_index(e, key) {
            Some(i) => 0 <= i < e.len() && e[i].0@ == key && forall|j: int|
                0 <= j < i ==> e[j].0@ != key,
            None => forall|j: int| 0 <= j < e.len() ==> e[j].0@ != key,
        },
    decreases e.len(),
{
    if e.len() > 0 && e[0].0@ != key {
        lemma_assoc_index_props(e.drop_first(), key);
        assert forall|j: int| 1 <= j < e.len() implies e[j] == e.drop_first()[j - 1] by {}
    }
}

/// Conversely, a witness of a first match pins `assoc_index` down.
pub proof fn lemma_assoc_index_of_first_match(e: Seq<(String, Value)>, key: Seq<char>, i: int)
    requires
        0 <= i < e.len(),
        e[i].0@ == key,
        forall|j: int| 0 <= j < i ==> e[j].0@ != key,
    ensures
        assoc_index(e, key) == Some(i),
    decreases e.len(),
{
    if i > 0 {
        lemma_assoc_index_of_first_match(e.drop_first(), key, i - 1);
    }
}

/// With no match at all, `assoc_index` finds none.
pub proof fn lemma_assoc_index_of_no_match(e: Seq<(String, Value)>, key: Seq<char>)
    requires
        forall|j: int| 0 <= j < e.len() ==> e[j].0@ != key,
    ensures
        assoc_index(e, key) == None::<int>,
    decreases e.len(),
{
    if e.len() > 0 {
        lemma_assoc_index_of_no_match(e.drop_first(), key);
    }
}

/// Looks `key` up in an entry list.
pub fn assoc_find(e: &Vec<(String, Value)>, key: &String) -> (r: Option<usize>)
    ensures
        match r {
            Some(i) => assoc_index(e@, key@) == Some(i as int),
            None => assoc_index(e@, key@) == None::<int>,
        },
{
    let n = e.len();
    let mut i: usize = 0;
    while i < n
        invariant
            n == e@.len(),
            i <= n,
            forall|j: int| 0 <= j < i ==> e@[j].0@ != key@,
        decreases n - i,
    {
        if e[i].0 == *key {
            proof {
                lemma_assoc_index_of_first_match(e@, key@, i as int);
            }
            return Some(i);
        }
        i = i + 1;
    }
    proof {
        lemma_assoc_index_of_no_match(e@, key@);
    }
    None
}

/// Reads the value bound to `key`, if any.
pub fn assoc_read(e: &Vec<(String, Value)>, key: &String) -> (r: Option<Value>)
    ensures
        r == assoc_get(e@, key@),
{
    proof {
        lemma_assoc_index_props(e@, key@);
    }
    match assoc_find(e, key) {
        Some(i) => Some(e[i].1.clone()),
        None => None,
    }
}

/// Binds `key` to `value`: overwrites the first entry with that key, or
/// appends a new entry. Returns the value previously bound, as a map insert
/// does. Insertion order of distinct keys is kept.
pub fn assoc_insert(e: &mut Vec<(String, Value)>, key: String, value: Value) -> (prev: Option<
    Value,
>)
    ensures
        prev == assoc_get(old(e)@, key@),
        match assoc_index(old(e)@, key@) {
            Some(i) => final(e)@ == old(e)@.update(i, (key, value)),
            None => final(e)@ == old(e)@.push((key, value)),
        },
{
    proof {
        lemma_assoc_index_props(e@, key@);
    }
    match assoc_find(e, &key) {
        Some(i) => {
            let prev = e[i].1.clone();
            e.set(i, (key, value));
            Some(prev)
        },
        None => {
            e.push((key, value));
            None
        },
    }
}

/// The arena of shared-mutable cells.
pub struct Heap {
    pub slots: Vec<Slot>,
}

impl Heap {
    pub fn new() -> (h: Heap)
        ensures
            h.slots@ == Seq::<Slot>::empty(),
    {
        Heap { slots: Vec::new() }
    }

    pub fn len(&self) -> (n: usize)
        ensures
            n == self.slots@.len(),
    {
        self.slots.len()
    }

    /// Creates a fresh cell and returns its handle. Handles never dangle:
    /// the arena only grows.
    pub fn add(&mut self, s: Slot) -> (id: usize)
        ensures
            id == old(self).slots@.len(),
            final(self).slots@ == old(self).slots@.push(s),
    {
        let id = self.slots.len();
        self.slots.push(s);
        id
    }

    /// The content of cell `id`.
    pub fn slot(&self, id: usize) -> (s: &Slot)
        requires
            id < self.slots@.len(),
        ensures
            *s == self.slots@[id as int],
    {
        &self.slots[id]
    }

    /// Replaces the content of cell `id`.
    pub fn set(&mut self, id: usize, s: Slot)
        requires
            id < old(self).slots@.len(),
        ensures
            final(self).slots@ == old(self).slots@.update(id as int, s),
    {
        self.slots.set(id, s);
    }

    /// Reads the value inside a box cell: the observation half of the
    /// shared-cell semantics. Any handle copied from the boxing register
    /// reaches the same cell.
    pub fn box_get(&self, id: usize) -> (r: Result<Value, VmError>)
        ensures
            match r {
                Ok(v) => id < self.slots@.len() && self.slots@[id as int] == Slot::Box(v),
                Err(e) => e == VmError::TypeError && (id >= self.slots@.len()
                    || !(self.slots@[id as int] is Box)),
            },
    {
        if id >= self.slots.len() {
            return Err(VmError::TypeError);
        }
        match self.slot(id) {
            Slot::Box(v) => Ok(v.clone()),
            _ => Err(VmError::TypeError),
        }
    }

    /// Replaces the value inside a box cell: the mutation half of the
    /// shared-cell semantics.
    pub fn box_set(&mut self, id: usize, value: Value) -> (r: Result<(), VmError>)
        ensures
            match r {
                Ok(()) => id < old(self).slots@.len() && old(self).slots@[id as int] is Box
                    && final(self).slots@ == old(self).slots@.update(
                    id as int,
                    Slot::Box(value),
                ),
                Err(e) => e == VmError::TypeError && *final(self) == *old(self) && (id >= old(
                    self,
                ).slots@.len() || !(old(self).slots@[id as int] is Box)),
            },
    {
        if id >= self.slots.len() {
            return Err(VmError::TypeError);
        }
        let is_box = match self.slot(id) {
            Slot::Box(_) => true,
            _ => false,
        };
        if !is_box {
            return Err(VmError::TypeError);
        }
        self.set(id, Slot::Box(value));
        Ok(())
    }
}

} // verus!
