//! The coroutine subsystem: stackful cooperative coroutines built from nested
//! machine instances.
//!
//! A coroutine cell holds a second [`Vm`] with its own call stack, drivable
//! independently of the machine that holds the handle. Resuming it steps that
//! nested stack forward until the nested root returns
//! ([`CoEvent::Returned`] — the coroutine is then terminal and further
//! resumes are stack-discipline errors), or until it calls a host native
//! ([`CoEvent::Suspended`] — the explicit yield point: the whole nested call
//! stack is preserved, the host interprets the call, and the next resume
//! feeds its `input` back as the call's result). [`resume_post`] pins the
//! whole resume to a chain of engine steps of the nested machine.
use vstd::prelude::*;
use crate::code::{CodeId, CodePool};
use crate::engine::{cur_frame, has_frame, run_post, Step};
use crate::error::VmError;
use crate::heap::Heap;
use crate::heap::Slot;
use crate::value::{FnKind, Value};
use crate::vm::{frame_reg_set, fresh_stack, same_but_top, CoStatus, Coroutine, Invoked, Vm};

verus! {

/// What a resume produced.
pub enum CoEvent {
    /// The nested root frame returned this value; the coroutine is terminal.
    Returned(Value),
    /// The coroutine suspended at a call to host native `id` with `args`:
    /// its yield point. The next resume's `input` becomes the call's result.
    Suspended { id: u64, args: Vec<Value> },
    /// The instruction budget ran dry mid-run; resume again to continue.
    Paused,
}

/// Builds a coroutine over the code unit `code`, called with `args`, sharing
/// the global table `globals`, and returns its handle value.
pub fn coroutine_new(
    heap: &mut Heap,
    pool: &CodePool,
    code: CodeId,
    args: Vec<Value>,
    globals: usize,
) -> (r: Result<Value, VmError>)
    ensures
        match r {
            Ok(v) => {
                &&& code < pool.units@.len()
                &&& v == Value::Coroutine(old(heap).slots@.len() as usize)
                &&& final(heap).slots@.len() == old(heap).slots@.len() + 1
                &&& forall|j: int|
                    0 <= j < old(heap).slots@.len() ==> final(heap).slots@[j] == old(
                        heap,
                    ).slots@[j]
                &&& ({
                    let c = final(heap).slots@.last()->Coroutine_0;
                    &&& final(heap).slots@.last() is Coroutine
                    &&& c.status == CoStatus::Active
                    &&& c.vm.globals == globals
                    &&& c.vm.call_stack@.len() == 1
                    &&& c.vm.call_stack@.last().code == code
                    &&& c.vm.call_stack@.last().ip == 0
                    &&& c.vm.call_stack@.last().stack@ == fresh_stack(
                        args@,
                        pool.units@[code as int].registers as int,
                    )
                })
            },
            Err(e) => e == VmError::MalformedBytecode && *final(heap) == *old(heap) && code
                >= pool.units@.len(),
        },
{
    let mut vm = Vm { call_stack: Vec::new(), globals };
    match vm.call(pool, &FnKind::Fn(code), args, 0) {
        Ok(Invoked::Pushed) => {
            let id = heap.add(Slot::Coroutine(Coroutine { vm, status: CoStatus::Active }));
            Ok(Value::Coroutine(id))
        },
        Ok(Invoked::Native { .. }) => {
            proof {
                assert(false);
            }
            Err(VmError::MalformedBytecode)
        },
        Err(e) => Err(e),
    }
}

/// The heap a resume hands to the nested machine: the coroutine cell replaced
/// by a running placeholder with an empty call stack, so that a re-entrant
/// resume of the same cell is rejected, and every other cell untouched.
pub open spec fn co_started(h0: Heap, co: int, hs: Heap) -> bool {
    &&& hs.slots@.len() == h0.slots@.len()
    &&& forall|j: int| 0 <= j < h0.slots@.len() && j != co ==> hs.slots@[j] == h0.slots@[j]
    &&& hs.slots@[co] is Coroutine
    &&& hs.slots@[co]->Coroutine_0.status == CoStatus::Running
    &&& hs.slots@[co]->Coroutine_0.vm.call_stack@.len() == 0
}

/// How the resumer's `input` reaches the nested machine `m0`: a coroutine
/// suspended at a yield point receives it in the register its native call
/// named, anything else runs unchanged.
pub open spec fn input_delivered(m0: Vm, status: CoStatus, input: Value, m1: Vm) -> bool {
    match status {
        CoStatus::AwaitingNative { dst } => {
            &&& has_frame(m0)
            &&& (dst as int) < cur_frame(m0).stack@.len()
            &&& same_but_top(m0, m1)
            &&& frame_reg_set(cur_frame(m0), cur_frame(m1), dst as int, input)
        },
        _ => m1 == m0,
    }
}

/// The delivery cannot happen: the yield point's register is gone — a
/// malformed-bytecode condition that ends the coroutine.
pub open spec fn delivery_fails(m0: Vm, status: CoStatus) -> bool {
    match status {
        CoStatus::AwaitingNative { dst } => !has_frame(m0) || (dst as int) >= cur_frame(
            m0,
        ).stack@.len(),
        _ => false,
    }
}

/// What resuming the live, non-terminal coroutine in cell `co` did: its
/// machine received `input`, ran as a chain of engine steps over the heap
/// with `co` marked running ([`run_post`]), and was stored back exactly as
/// the chain left it, the cell's status and the event naming how the chain
/// ended — `Returned(v)` for a root return of `v`, `Suspended` with the
/// call's own payload for a yield point (the named register recorded for the
/// next delivery), `Paused` for a spent budget, the error itself when the
/// nested machine aborted.
pub open spec fn resume_post(
    pool: CodePool,
    h0: Heap,
    co: int,
    input: Value,
    h1: Heap,
    r: Result<CoEvent, VmError>,
    fuel: nat,
) -> bool {
    let c0 = h0.slots@[co]->Coroutine_0;
    if delivery_fails(c0.vm, c0.status) {
        &&& r == Err::<CoEvent, VmError>(VmError::MalformedBytecode)
        &&& h1.slots@.len() == h0.slots@.len()
        &&& forall|j: int| 0 <= j < h0.slots@.len() && j != co ==> h1.slots@[j] == h0.slots@[j]
        &&& h1.slots@[co] is Coroutine
        &&& h1.slots@[co]->Coroutine_0.vm == c0.vm
        &&& h1.slots@[co]->Coroutine_0.status == CoStatus::Returned
    } else {
        exists|hs: Heap, m1: Vm, hr: Heap, mr: Vm, rr: Result<Step, VmError>|
            {
                &&& co_started(h0, co, hs)
                &&& input_delivered(c0.vm, c0.status, input, m1)
                &&& #[trigger] run_post(pool, hs, m1, hr, mr, rr, fuel)
                &&& h1.slots@.len() == hr.slots@.len()
                &&& forall|j: int|
                    0 <= j < hr.slots@.len() && j != co ==> h1.slots@[j] == hr.slots@[j]
                &&& h1.slots@[co] is Coroutine
                &&& h1.slots@[co]->Coroutine_0.vm == mr
                &&& ({
                    let status1 = h1.slots@[co]->Coroutine_0.status;
                    match rr {
                        Ok(Step::Done(v)) => r == Ok::<CoEvent, VmError>(CoEvent::Returned(v))
                            && status1 == CoStatus::Returned,
                        Ok(Step::Native { id, args, dst }) => (r matches Ok(
                            CoEvent::Suspended { id: i2, args: a2 },
                        ) && i2 == id && a2 == args) && status1 == (CoStatus::AwaitingNative {
                            dst,
                        }),
                        Ok(Step::KeepGoing) => r == Ok::<CoEvent, VmError>(CoEvent::Paused)
                            && status1 == CoStatus::Active,
                        Err(e) => r == Err::<CoEvent, VmError>(e) && status1
                            == CoStatus::Returned,
                    }
                })
            }
    }
}

/// Resumes the coroutine behind cell `co`, spending at most `fuel`
/// instructions of its nested machine.
///
/// A terminal or currently running coroutine is rejected as a
/// stack-discipline violation and nothing changes; a cell that holds no
/// coroutine is a type error. Otherwise everything the resume did —
/// delivering `input` to a yield point, the chain of nested engine steps,
/// the stored machine, the cell's new status and the event's payload — is
/// pinned by [`resume_post`].
pub fn resume(heap: &mut Heap, pool: &CodePool, co: usize, input: Value, fuel: u64) -> (r: Result<
    CoEvent,
    VmError,
>)
    ensures
        final(heap).slots@.len() >= old(heap).slots@.len(),
        ({
            let n0 = old(heap).slots@.len();
            if co >= n0 || !(old(heap).slots@[co as int] is Coroutine) {
                r == Err::<CoEvent, VmError>(VmError::TypeError) && *final(heap) == *old(heap)
            } else {
                let c0 = old(heap).slots@[co as int]->Coroutine_0;
                if c0.status == CoStatus::Returned || c0.status == CoStatus::Running {
                    r == Err::<CoEvent, VmError>(VmError::StackDiscipline) && *final(heap) == *old(
                        heap,
                    )
                } else {
                    resume_post(
                        *pool,
                        *old(heap),
                        co as int,
                        input,
                        *final(heap),
                        r,
                        fuel as nat,
                    )
                }
            }
        }),
{
    if co >= heap.len() {
        return Err(VmError::TypeError);
    }
    let status = match heap.slot(co) {
        Slot::Coroutine(c) => c.status,
        _ => {
            return Err(VmError::TypeError);
        },
    };
    match status {
        CoStatus::Returned => {
            return Err(VmError::StackDiscipline);
        },
        CoStatus::Running => {
            return Err(VmError::StackDiscipline);
        },
        _ => {},
    }
    // Take the nested machine out, leaving the cell marked as running so that
    // a re-entrant resume of the same cell is rejected.
    let mut taken: Slot = Slot::Coroutine(
        Coroutine { vm: Vm { call_stack: Vec::new(), globals: 0 }, status: CoStatus::Running },
    );
    core::mem::swap(&mut heap.slots[co], &mut taken);
    let ghost hs = *heap;
    let mut machine = match taken {
        Slot::Coroutine(c) => c.vm,
        _ => {
            proof {
                assert(false);
            }
            Vm { call_stack: Vec::new(), globals: 0 }
        },
    };
    let ghost m0 = machine;
    // A coroutine suspended at its yield point first receives the resumer's
    // input as the result of the interpreted host call.
    match status {
        CoStatus::AwaitingNative { dst } => {
            match machine.native_return(input, dst) {
                Ok(()) => {},
                Err(e) => {
                    heap.set(
                        co,
                        Slot::Coroutine(Coroutine { vm: machine, status: CoStatus::Returned }),
                    );
                    return Err(e);
                },
            }
        },
        _ => {},
    }
    let ghost m1 = machine;
    let rr = machine.run(heap, pool, fuel);
    let ghost hr = *heap;
    let ghost mr = machine;
    let ghost rr_g = rr;
    proof {
        assert(co_started(*old(heap), co as int, hs));
        assert(input_delivered(m0, status, input, m1));
        assert(run_post(*pool, hs, m1, hr, mr, rr_g, fuel as nat));
    }
    match rr {
        Ok(Step::Done(v)) => {
            heap.set(co, Slot::Coroutine(Coroutine { vm: machine, status: CoStatus::Returned }));
            Ok(CoEvent::Returned(v))
        },
        Ok(Step::Native { id, args, dst }) => {
            heap.set(
                co,
                Slot::Coroutine(
                    Coroutine { vm: machine, status: CoStatus::AwaitingNative { dst } },
                ),
            );
            Ok(CoEvent::Suspended { id, args })
        },
        Ok(Step::KeepGoing) => {
            heap.set(co, Slot::Coroutine(Coroutine { vm: machine, status: CoStatus::Active }));
            Ok(CoEvent::Paused)
        },
        Err(e) => {
            heap.set(co, Slot::Coroutine(Coroutine { vm: machine, status: CoStatus::Returned }));
            Err(e)
        },
    }
}

} // verus!
