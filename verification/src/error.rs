//! The error taxonomy of the engine.
use vstd::prelude::*;

verus! {

/// Why execution of a machine instance aborted.
///
/// `MalformedBytecode` marks a fatal condition well-formed bytecode cannot
/// reach: a register, address or pool index out of range, or a
/// literal-construction operand whose register holds a value of the wrong
/// shape. `TypeError` is the recoverable kind: an operation applied to a value
/// variant it does not support. `StackDiscipline` marks a return on an empty
/// call stack or a resume of a coroutine that already returned — fatal, since
/// well-formed bytecode and protocol-respecting hosts cannot trigger it.
/// Failures of host-supplied native functions stay with the host driving the
/// loop; they never pass through this enum.
#[derive(Debug, Clone, Copy, PartialEq, Eq, Structural)]
pub enum VmError {
    MalformedBytecode,
    TypeError,
    StackDiscipline,
}

} // verus!
