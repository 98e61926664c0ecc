//! The execution core of a register-based bytecode virtual machine for a
//! small dynamically-typed language: an instruction set, a tagged-union value
//! model with shared-mutable cells, a call-frame stack, a fetch-decode-execute
//! engine, and a coroutine mechanism built from nested machine instances.
//!
//! Shared-mutable compound values live in an index-addressed [`heap::Heap`];
//! a handle is a plain index, so identity is index equality and the whole
//! machine is ordinary data.
pub mod code;
pub mod coro;
pub mod eq;
pub mod engine;
pub mod error;
pub mod heap;
pub mod laws;
pub mod render;
pub mod value;
pub mod vm;

pub use code::{Address, ByteCode, Code, CodeId, CodePool, Register};
