//! The tagged union of runtime values.
//!
//! Values fall in two ownership regimes. Scalars (the absence marker,
//! integers, floats, booleans, characters, strings) are copied on assignment.
//! Compounds (tuples, sequences, mappings, classes, objects, iterators, boxes,
//! coroutines) are shared-mutable: a value of such a variant is a plain index
//! into the [`crate::heap::Heap`], so every holder of the same index observes
//! the same mutation and identity is index equality.
use vstd::prelude::*;
use crate::code::CodeId;

verus! {

/// A handle to a shared-mutable cell in the heap.
pub type HeapId = usize;

/// A function value: either a compiled code unit or a host-supplied native
/// callable, named by the number the host registered it under.
#[derive(Debug, Clone, Copy, PartialEq, Eq, Structural)]
pub enum FnKind {
    Fn(CodeId),
    NativeFn(u64),
}

/// One runtime value. `Float` carries the IEEE-754 bit pattern of the number;
/// the engine moves floats but never computes with them.
#[derive(Debug)]
pub enum Value {
    Nil,
    Int(i64),
    Float(u64),
    Bool(bool),
    Char(char),
    Str(String),
    Fn(FnKind),
    Coroutine(HeapId),
    Tuple(HeapId),
    Vec(HeapId),
    Mapping(HeapId),
    Class(HeapId),
    Object(HeapId),
    Iter(HeapId),
    Box(HeapId),
}

impl Clone for Value {
    /// Copy-on-assignment: scalars are duplicated, compound variants copy only
    /// the handle, so the copy aliases the same heap cell.
    fn clone(&self) -> (r: Self)
        ensures
            r == *self,
    {
        match self {
            Value::Nil => Value::Nil,
            Value::Int(v) => Value::Int(*v),
            Value::Float(v) => Value::Float(*v),
            Value::Bool(v) => Value::Bool(*v),
            Value::Char(v) => Value::Char(*v),
            Value::Str(v) => Value::Str(v.clone()),
            Value::Fn(v) => Value::Fn(*v),
            Value::Coroutine(v) => Value::Coroutine(*v),
            Value::Tuple(v) => Value::Tuple(*v),
            Value::Vec(v) => Value::Vec(*v),
            Value::Mapping(v) => Value::Mapping(*v),
            Value::Class(v) => Value::Class(*v),
            Value::Object(v) => Value::Object(*v),
            Value::Iter(v) => Value::Iter(*v),
            Value::Box(v) => Value::Box(*v),
        }
    }
}

/// A class descriptor: a name, the ordered field-name list that positions
/// object fields, and the ordered method and meta-method lists.
#[derive(Debug)]
pub struct Class {
    pub name: String,
    pub fields: Vec<String>,
    pub methods: Vec<FnKind>,
    pub meta_methods: Vec<FnKind>,
}

/// An object instance: a handle to its class cell and a handle to the tuple
/// cell holding its field values, positionally aligned to the class's field
/// list.
#[derive(Debug, Clone, Copy, PartialEq, Eq, Structural)]
pub struct Object {
    pub class: HeapId,
    pub values: HeapId,
}

} // verus!
