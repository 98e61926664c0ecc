//! Laws of the engine, proved from the step relation [`step_post`] alone:
//! they hold of any machine the verified [`crate::vm::Vm::step`] drives.
use vstd::prelude::*;
use crate::code::{Address, ByteCode, CodeId, CodePool, Register};
use crate::engine::{branch_target, cur_frame, cur_instr, fetch_ok, step_post, Step};
use crate::eq::is_scalar;
use crate::error::VmError;
use crate::heap::{items_of, Heap};
use crate::value::Value;
use crate::vm::Vm;

verus! {

/// Jump polarity: a conditional jump on a boolean-valued register takes the
/// branch exactly when the tested value differs from the `not` flag — with
/// `not` false, a true source branches; with `not` true, the same source
/// falls through; and symmetrically for a false source. All four combinations
/// are pinned by the one equation on the new instruction pointer.
pub proof fn lemma_jump_polarity(
    pool: CodePool,
    h0: Heap,
    v0: Vm,
    h1: Heap,
    v1: Vm,
    r: Result<Step, VmError>,
    not: bool,
    src: Register,
    addr: Address,
    b: bool,
)
    requires
        fetch_ok(v0, pool),
        cur_instr(v0, pool) == (ByteCode::JumpIf { not, src, addr }),
        (src as int) < cur_frame(v0).stack@.len(),
        cur_frame(v0).stack@[src as int] == Value::Bool(b),
        step_post(pool, h0, v0, h1, v1, r),
    ensures
        r == Ok::<Step, VmError>(Step::KeepGoing),
        h1 == h0,
        cur_frame(v1).ip == branch_target(b, not, addr as int, cur_frame(v0).ip as int),
        cur_frame(v1).ip == if b != not {
            addr as int
        } else {
            cur_frame(v0).ip + 1
        },
        cur_frame(v1).stack@ == cur_frame(v0).stack@,
{
}

/// Calling convention round trip: a unit of two registers whose body copies
/// its single argument register into its return-source register and returns
/// it gives back exactly the argument, for every scalar input. The machine
/// starts as [`crate::vm::Vm::call`] leaves it — one fresh frame holding the
/// argument — and two steps later the root return hands the argument out.
pub proof fn lemma_call_return_round_trip(
    pool: CodePool,
    h0: Heap,
    v0: Vm,
    h1: Heap,
    v1: Vm,
    r1: Result<Step, VmError>,
    h2: Heap,
    v2: Vm,
    r2: Result<Step, VmError>,
    cid: CodeId,
    v: Value,
)
    requires
        is_scalar(v),
        (cid as int) < pool.units@.len(),
        pool.units@[cid as int].bytecodes@ =~= seq![
            ByteCode::Copy { dst: 1u16, src: 0u16 },
            ByteCode::Return { src: Some(1u16) },
        ],
        v0.call_stack@.len() == 1,
        cur_frame(v0).code == cid,
        cur_frame(v0).ip == 0,
        cur_frame(v0).stack@ =~= seq![v, Value::Nil],
        step_post(pool, h0, v0, h1, v1, r1),
        step_post(pool, h1, v1, h2, v2, r2),
    ensures
        r1 == Ok::<Step, VmError>(Step::KeepGoing),
        r2 == Ok::<Step, VmError>(Step::Done(v)),
        v2.call_stack@.len() == 0,
{
    assert(cur_instr(v0, pool) == (ByteCode::Copy { dst: 1u16, src: 0u16 }));
    assert(cur_frame(v1).stack@ =~= seq![v, v]);
    assert(cur_frame(v1).ip == 1);
    assert(cur_frame(v1).code == cid);
    assert(v1.call_stack@.len() == 1);
    assert(cur_instr(v1, pool) == (ByteCode::Return { src: Some(1u16) }));
    assert(cur_frame(v1).stack@[1] == v);
}

/// Construction mirrors its sources: building a sequence from a register
/// range yields a fresh cell whose structural content is exactly those
/// registers' values, and the destination register now names that cell.
pub proof fn lemma_sequence_construction(
    pool: CodePool,
    h0: Heap,
    v0: Vm,
    h1: Heap,
    v1: Vm,
    r: Result<Step, VmError>,
    dst: Register,
    start: Register,
    amount: Register,
)
    requires
        fetch_ok(v0, pool),
        cur_instr(v0, pool) == (ByteCode::Vec { dst, start, amount }),
        (dst as int) < cur_frame(v0).stack@.len(),
        start as int + amount as int <= cur_frame(v0).stack@.len(),
        step_post(pool, h0, v0, h1, v1, r),
    ensures
        r == Ok::<Step, VmError>(Step::KeepGoing),
        h1.slots@.len() == h0.slots@.len() + 1,
        h1.slots@.last() is Vec,
        items_of(h1.slots@.last()) == cur_frame(v0).stack@.subrange(
            start as int,
            start as int + amount as int,
        ),
        cur_frame(v1).stack@[dst as int] == Value::Vec(h0.slots@.len() as usize),
{
}

} // verus!
