//! The bytecode vocabulary and the code unit: the container a compiler fills
//! with instructions, constant pools and nested code-unit references.
use vstd::prelude::*;
use std::collections::HashMap;

verus! {

/// A register index inside one activation frame.
pub type Register = u16;

/// An absolute instruction address inside one code unit.
pub type Address = usize;

/// A handle to a code unit inside a [`CodePool`]. Code units are shared by
/// index: several function values may name the same unit.
pub type CodeId = usize;

/// One instruction. Each variant carries exactly the operands it needs:
/// register indices, absolute instruction addresses, literal constants, or
/// constant-pool indices.
///
/// Floating-point literals are carried as their IEEE-754 bit pattern in a
/// `u64`: the engine never computes with them, it only moves them.
#[derive(Debug, Clone, Copy, PartialEq, Default)]
#[allow(inconsistent_fields)]
pub enum ByteCode {
    /// Does nothing; a placeholder the compiler overwrites when back-patching.
    #[default]
    Noop,
    /// Unconditional jump to the absolute instruction address `addr`.
    Jump { addr: Address },
    /// Jump to `addr` when the boolean in `src` is true; `not` inverts the test.
    JumpIf { not: bool, src: Register, addr: Address },
    /// Jump to `addr` when `src` holds anything but the absence marker;
    /// `not` inverts the test.
    JumpIfSome { not: bool, src: Register, addr: Address },
    /// Copy the value of register `src` into register `dst`.
    Copy { dst: Register, src: Register },
    /// Read the global named by string-pool entry `addr` into `dst`.
    /// A name with no binding reads as the absence marker.
    Global { dst: Register, addr: usize },
    /// Write the value of `src` to the global named by string-pool entry `addr`.
    SetGlobal { addr: usize, src: Register },
    /// Read a field: `head` holds a mapping or an object, the value of `field`
    /// selects the key or field name, the result goes to `dst`.
    Field { dst: Register, head: Register, field: Register },
    /// Write a field: `head` holds a mapping or an object, the value of `field`
    /// selects the key or field name, the value of `src` is stored.
    SetField { head: Register, field: Register, src: Register },
    /// Call the function value held in `dst` with the `amount` arguments in the
    /// contiguous registers starting at `start`; the eventual return value
    /// replaces the function value in `dst`.
    Call { dst: Register, start: Register, amount: Register },
    /// Pop the current frame and hand the value of `src` (or the absence
    /// marker when `src` is absent) to the parent frame's destination register.
    Return { src: Option<Register> },
    /// Store the absence marker in `dst`.
    Nil { dst: Register },
    /// Store the integer literal `value` in `dst`.
    Int { dst: Register, value: i64 },
    /// Store the float whose IEEE-754 bit pattern is `value` in `dst`.
    Float { dst: Register, value: u64 },
    /// Store the boolean literal `value` in `dst`.
    Bool { dst: Register, value: bool },
    /// Store the character literal `value` in `dst`.
    Char { dst: Register, value: char },
    /// Store a copy of string-pool entry `addr` in `dst`.
    Str { dst: Register, addr: usize },
    /// Store a function value naming nested-unit-pool entry `addr` in `dst`.
    Fn { dst: Register, addr: usize },
    /// Build a fixed-length tuple from the `amount` registers starting at
    /// `start` and store its handle in `dst`.
    Tuple { dst: Register, start: Register, amount: Register },
    /// Build a growable sequence from the `amount` registers starting at
    /// `start` and store its handle in `dst`.
    Vec { dst: Register, start: Register, amount: Register },
    /// Build an empty string-keyed mapping and store its handle in `dst`.
    Mapping { dst: Register },
    /// Build a class value: its name is string-pool entry `name_addr`; its
    /// field names are the string values in `fields_amount` registers from
    /// `fields_start`; its methods are the function values in registers
    /// `methods_start..methods_end`, its meta-methods those in
    /// `meta_methods_start..meta_methods_end`.
    Class {
        dst: Register,
        name_addr: usize,
        fields_start: Register,
        fields_amount: Register,
        methods_start: Register,
        methods_end: Register,
        meta_methods_start: Register,
        meta_methods_end: Register,
    },
    /// Replace the value of `reg` with a shared-mutable box holding a copy of
    /// that value: the sole primitive that gives a register reference
    /// semantics.
    Box { reg: Register },
}

/// One compiled code unit: an instruction sequence, a string constant pool,
/// a pool of nested code-unit handles, and the number of register slots an
/// activation of this unit needs. A unit is immutable once execution starts;
/// the authoring operations below exist for the out-of-scope compiler.
#[derive(Debug)]
pub struct Code {
    pub bytecodes: Vec<ByteCode>,
    /// Source positions by instruction address, carried for diagnostics.
    pub positions: HashMap<usize, parse_pos::Position>,
    pub strings: Vec<String>,
    pub refs: Vec<CodeId>,
    pub registers: Register,
}

/// `parse_pos::Position` is the front-end's source-span type. The engine only
/// stores and hands back such values; it never reads their fields.
#[verifier::external_type_specification]
#[verifier::external_body]
pub struct ExPosition(parse_pos::Position);

impl Code {
    /// An empty unit declaring `registers` register slots.
    pub fn empty(registers: Register) -> (c: Code)
        ensures
            c.bytecodes@ == Seq::<ByteCode>::empty(),
            c.positions@ == Map::<usize, parse_pos::Position>::empty(),
            c.strings@ == Seq::<String>::empty(),
            c.refs@ == Seq::<CodeId>::empty(),
            c.registers == registers,
    {
        Code {
            bytecodes: Vec::new(),
            positions: HashMap::new(),
            strings: Vec::new(),
            refs: Vec::new(),
            registers,
        }
    }

    /// Appends an instruction and returns the address it was placed at.
    pub fn write(&mut self, bytecode: ByteCode) -> (addr: Address)
        ensures
            addr == old(self).bytecodes@.len(),
            final(self).bytecodes@ == old(self).bytecodes@.push(bytecode),
            final(self).positions == old(self).positions,
            final(self).strings == old(self).strings,
            final(self).refs == old(self).refs,
            final(self).registers == old(self).registers,
    {
        let addr = self.bytecodes.len();
        self.bytecodes.push(bytecode);
        addr
    }

    /// Appends an instruction together with its source position and returns
    /// the address it was placed at.
    pub fn write_pos(&mut self, bytecode: ByteCode, pos: parse_pos::Position) -> (addr: Address)
        ensures
            addr == old(self).bytecodes@.len(),
            final(self).bytecodes@ == old(self).bytecodes@.push(bytecode),
            final(self).positions@ == old(self).positions@.insert(addr, pos),
            final(self).strings == old(self).strings,
            final(self).refs == old(self).refs,
            final(self).registers == old(self).registers,
    {
        let addr = self.write(bytecode);
        self.positions.insert(addr, pos);
        addr
    }

    /// Appends a placeholder instruction (a back-patch target) and returns its
    /// address.
    pub fn none(&mut self) -> (addr: Address)
        ensures
            addr == old(self).bytecodes@.len(),
            final(self).bytecodes@ == old(self).bytecodes@.push(ByteCode::Noop),
            final(self).positions == old(self).positions,
            final(self).strings == old(self).strings,
            final(self).refs == old(self).refs,
            final(self).registers == old(self).registers,
    {
        let addr = self.bytecodes.len();
        self.bytecodes.push(ByteCode::Noop);
        addr
    }

    /// Overwrites the instruction at a previously returned address: how the
    /// compiler fixes up a forward jump once its target is known.
    pub fn overwrite(&mut self, addr: Address, bytecode: ByteCode)
        requires
            addr < old(self).bytecodes@.len(),
        ensures
            final(self).bytecodes@ == old(self).bytecodes@.update(addr as int, bytecode),
            final(self).positions == old(self).positions,
            final(self).strings == old(self).strings,
            final(self).refs == old(self).refs,
            final(self).registers == old(self).registers,
    {
        self.bytecodes.set(addr, bytecode);
    }

    /// Overwrites the instruction at `addr` and records its source position.
    pub fn overwrite_pos(&mut self, addr: Address, bytecode: ByteCode, pos: parse_pos::Position)
        requires
            addr < old(self).bytecodes@.len(),
        ensures
            final(self).bytecodes@ == old(self).bytecodes@.update(addr as int, bytecode),
            final(self).positions@ == old(self).positions@.insert(addr, pos),
            final(self).strings == old(self).strings,
            final(self).refs == old(self).refs,
            final(self).registers == old(self).registers,
    {
        self.overwrite(addr, bytecode);
        self.positions.insert(addr, pos);
    }

    /// Interns a string constant and returns its pool index. Indices are
    /// stable: the pool only grows.
    pub fn new_string(&mut self, string: String) -> (addr: usize)
        ensures
            addr == old(self).strings@.len(),
            final(self).strings@ == old(self).strings@.push(string),
            final(self).bytecodes == old(self).bytecodes,
            final(self).positions == old(self).positions,
            final(self).refs == old(self).refs,
            final(self).registers == old(self).registers,
    {
        let addr = self.strings.len();
        self.strings.push(string);
        addr
    }

    /// Interns a nested code-unit handle and returns its pool index.
    pub fn new_ref(&mut self, code: CodeId) -> (addr: usize)
        ensures
            addr == old(self).refs@.len(),
            final(self).refs@ == old(self).refs@.push(code),
            final(self).bytecodes == old(self).bytecodes,
            final(self).positions == old(self).positions,
            final(self).strings == old(self).strings,
            final(self).registers == old(self).registers,
    {
        let addr = self.refs.len();
        self.refs.push(code);
        addr
    }
}

/// Owns every compiled code unit. Units are shared by [`CodeId`]; the pool
/// only grows, so a handle once issued stays valid.
pub struct CodePool {
    pub units: Vec<Code>,
}

impl CodePool {
    pub fn new() -> (p: CodePool)
        ensures
            p.units@ == Seq::<Code>::empty(),
    {
        CodePool { units: Vec::new() }
    }

    /// Adds a finished unit and returns its handle.
    pub fn add(&mut self, code: Code) -> (id: CodeId)
        ensures
            id == old(self).units@.len(),
            final(self).units@ == old(self).units@.push(code),
    {
        let id = self.units.len();
        self.units.push(code);
        id
    }

    /// The unit behind a handle.
    pub fn unit(&self, id: CodeId) -> (c: &Code)
        requires
            id < self.units@.len(),
        ensures
            *c == self.units@[id as int],
    {
        &self.units[id]
    }
}

} // verus!
