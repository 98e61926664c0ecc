//! One machine instance: a call stack of activation frames and a handle to a
//! shared global-name table. The engine in [`crate::engine`] drives it; a
//! coroutine wraps a second, independent instance of the same machinery.
use vstd::prelude::*;
use crate::code::{Address, CodeId, CodePool, Register};
use crate::error::VmError;
use crate::heap::{assoc_get, assoc_index, assoc_insert, assoc_read, entries_of, Heap, Slot};
use crate::value::{FnKind, HeapId, Value};

verus! {

/// One activation record: a code-unit handle, an instruction pointer, a
/// register file sized by the unit's declared register count, and the caller
/// register that will receive the eventual return value.
#[derive(Debug)]
pub struct Call {
    pub code: CodeId,
    pub ip: usize,
    pub stack: Vec<Value>,
    pub dst: Register,
}

/// A machine instance. The active frame is the top of the call stack; the
/// stack empties exactly when the root unit returns.
#[derive(Debug)]
pub struct Vm {
    pub call_stack: Vec<Call>,
    /// Handle of the [`Slot::Globals`] cell this machine reads and writes.
    /// Several machines (a driver and its coroutines) may share one table.
    pub globals: HeapId,
}


/// Where a coroutine stands in its protocol.
#[derive(Debug, Clone, Copy, PartialEq, Eq, Structural)]
pub enum CoStatus {
    /// Fresh, or suspended between instructions: a resume may run it.
    Active,
    /// Suspended at a host call — an explicit yield point. The next resume
    /// writes its input value into register `dst` of the top frame.
    AwaitingNative { dst: Register },
    /// Currently being stepped; resuming it again is a discipline violation.
    Running,
    /// Terminal: the nested root frame returned. Further resumes are errors.
    Returned,
}

/// A coroutine: an independent nested machine instance plus its protocol
/// state, stored in a heap cell so that the handle has identity.
#[derive(Debug)]
pub struct Coroutine {
    pub vm: Vm,
    pub status: CoStatus,
}

/// The register file a fresh frame starts with: `n` cells, default-filled
/// with the absence marker, the leading cells overwritten positionally with
/// the call's arguments (arguments beyond `n` are dropped).
pub open spec fn fresh_stack(args: Seq<Value>, n: int) -> Seq<Value> {
    Seq::new(n as nat, |i: int| if i < args.len() { args[i] } else { Value::Nil })
}

/// `f1` is `f0` with register `reg` overwritten by `v`.
pub open spec fn frame_reg_set(f0: Call, f1: Call, reg: int, v: Value) -> bool {
    &&& f1.code == f0.code
    &&& f1.ip == f0.ip
    &&& f1.dst == f0.dst
    &&& f1.stack@ == f0.stack@.update(reg, v)
}

/// `v1` differs from `v0` in at most the top frame.
pub open spec fn same_but_top(v0: Vm, v1: Vm) -> bool {
    &&& v1.globals == v0.globals
    &&& v0.call_stack@.len() > 0
    &&& v1.call_stack@.len() == v0.call_stack@.len()
    &&& forall|j: int|
        0 <= j < v0.call_stack@.len() - 1 ==> v1.call_stack@[j] == v0.call_stack@[j]
}

/// The machine's global table sits behind a live `Globals` cell.
pub open spec fn globals_ok(vm: Vm, heap: Heap) -> bool {
    &&& vm.globals < heap.slots@.len()
    &&& heap.slots@[vm.globals as int] is Globals
}

/// What a call to a function value did: pushed an interpreted frame, or asked
/// the host to run the native callable `id` on `args` and to hand the result
/// to caller register `dst`.
pub enum Invoked {
    Pushed,
    Native { id: u64, args: Vec<Value>, dst: Register },
}

/// The result of a return that found its source value `v`: the frame is
/// popped and `v` goes to the parent's destination register, or comes back
/// directly when the popped frame was the root.
pub open spec fn return_post(v0: Vm, v1: Vm, v: Value, r: Result<Value, VmError>) -> bool {
    let n = v0.call_stack@.len() as int;
    let top = v0.call_stack@.last();
    if n == 1 {
        &&& r == Ok::<Value, VmError>(v)
        &&& v1.globals == v0.globals
        &&& v1.call_stack@ == Seq::<Call>::empty()
    } else {
        let parent = v0.call_stack@[n - 2];
        if top.dst >= parent.stack@.len() {
            r == Err::<Value, VmError>(VmError::MalformedBytecode) && v1 == v0
        } else {
            &&& r == Ok::<Value, VmError>(v)
            &&& v1.globals == v0.globals
            &&& v1.call_stack@.len() == n - 1
            &&& forall|j: int| 0 <= j < n - 2 ==> v1.call_stack@[j] == v0.call_stack@[j]
            &&& frame_reg_set(parent, v1.call_stack@.last(), top.dst as int, v)
        }
    }
}

impl Vm {
    /// A machine over a freshly allocated global table holding `globals`.
    pub fn init(heap: &mut Heap, globals: Vec<(String, Value)>) -> (vm: Vm)
        ensures
            vm.call_stack@ == Seq::<Call>::empty(),
            vm.globals == old(heap).slots@.len(),
            final(heap).slots@ == old(heap).slots@.push(Slot::Globals(globals)),
    {
        let id = heap.add(Slot::Globals(globals));
        Vm { call_stack: Vec::new(), globals: id }
    }

    /// Reads the global bound to `name`, if any.
    pub fn global(&self, heap: &Heap, name: &String) -> (r: Option<Value>)
        requires
            globals_ok(*self, *heap),
        ensures
            r == assoc_get(entries_of(heap.slots@[self.globals as int]), name@),
    {
        match heap.slot(self.globals) {
            Slot::Globals(e) => assoc_read(e, name),
            _ => {
                proof {
                    assert(false);
                }
                None
            },
        }
    }

    /// Binds `name` to `value` in the global table and returns the value it
    /// replaced, if any.
    pub fn set_global(&self, heap: &mut Heap, name: String, value: Value) -> (prev: Option<Value>)
        requires
            globals_ok(*self, *old(heap)),
        ensures
            globals_ok(*self, *final(heap)),
            prev == assoc_get(entries_of(old(heap).slots@[self.globals as int]), name@),
            ({
                let e0 = entries_of(old(heap).slots@[self.globals as int]);
                let e1 = entries_of(final(heap).slots@[self.globals as int]);
                match assoc_index(e0, name@) {
                    Some(i) => e1 == e0.update(i, (name, value)),
                    None => e1 == e0.push((name, value)),
                }
            }),
            final(heap).slots@.len() == old(heap).slots@.len(),
            forall|j: int|
                0 <= j < old(heap).slots@.len() && j != self.globals ==> final(heap).slots@[j]
                    == old(heap).slots@[j],
    {
        let gid = self.globals;
        match &mut heap.slots[gid] {
            Slot::Globals(e) => assoc_insert(e, name, value),
            _ => {
                proof {
                    assert(false);
                }
                None
            },
        }
    }

    /// The active frame: the top of the call stack.
    pub fn get_call(&self) -> (c: &Call)
        requires
            self.call_stack@.len() > 0,
        ensures
            *c == self.call_stack@.last(),
    {
        let n = self.call_stack.len();
        &self.call_stack[n - 1]
    }

    /// The active frame, for mutation.
    pub fn get_call_mut(&mut self) -> (c: &mut Call)
        requires
            old(self).call_stack@.len() > 0,
        ensures
            *c == old(self).call_stack@.last(),
            final(self).globals == old(self).globals,
            final(self).call_stack@ == old(self).call_stack@.update(
                old(self).call_stack@.len() - 1,
                *final(c),
            ),
    {
        let n = self.call_stack.len();
        &mut self.call_stack[n - 1]
    }

    /// Reads register `reg` of the active frame.
    pub fn register(&self, reg: Register) -> (v: &Value)
        requires
            self.call_stack@.len() > 0,
            reg < self.call_stack@.last().stack@.len(),
        ensures
            *v == self.call_stack@.last().stack@[reg as int],
    {
        &self.get_call().stack[reg as usize]
    }

    /// Overwrites register `reg` of the active frame.
    pub fn set_register(&mut self, reg: Register, value: Value)
        requires
            old(self).call_stack@.len() > 0,
            reg < old(self).call_stack@.last().stack@.len(),
        ensures
            same_but_top(*old(self), *final(self)),
            frame_reg_set(
                old(self).call_stack@.last(),
                final(self).call_stack@.last(),
                reg as int,
                value,
            ),
    {
        let c = self.get_call_mut();
        c.stack.set(reg as usize, value);
    }

    /// Copies of the `amount` register values starting at `start`: how call
    /// arguments and constructor elements are gathered.
    pub fn registers(&self, start: Register, amount: Register) -> (vs: Vec<Value>)
        requires
            self.call_stack@.len() > 0,
            start as int + amount as int <= self.call_stack@.last().stack@.len(),
        ensures
            vs@ == self.call_stack@.last().stack@.subrange(
                start as int,
                start as int + amount as int,
            ),
    {
        let mut vs: Vec<Value> = Vec::new();
        let mut i: usize = 0;
        let c = self.get_call();
        while i < amount as usize
            invariant
                i <= amount as usize,
                *c == self.call_stack@.last(),
                self.call_stack@.len() > 0,
                start as int + amount as int <= c.stack@.len(),
                vs@ == c.stack@.subrange(start as int, start as int + i as int),
            decreases amount as int - i,
        {
            vs.push(c.stack[start as usize + i].clone());
            proof {
                assert(vs@ =~= c.stack@.subrange(start as int, start as int + i + 1));
            }
            i = i + 1;
        }
        vs
    }

    /// String-pool entry `addr` of the active frame's code unit.
    pub fn string<'a>(&self, pool: &'a CodePool, addr: Address) -> (s: &'a String)
        requires
            self.call_stack@.len() > 0,
            self.call_stack@.last().code < pool.units@.len(),
            addr < pool.units@[self.call_stack@.last().code as int].strings@.len(),
        ensures
            *s == pool.units@[self.call_stack@.last().code as int].strings@[addr as int],
    {
        &pool.unit(self.get_call().code).strings[addr]
    }

    /// Nested-unit-pool entry `addr` of the active frame's code unit.
    pub fn code(&self, pool: &CodePool, addr: Address) -> (id: CodeId)
        requires
            self.call_stack@.len() > 0,
            self.call_stack@.last().code < pool.units@.len(),
            addr < pool.units@[self.call_stack@.last().code as int].refs@.len(),
        ensures
            id == pool.units@[self.call_stack@.last().code as int].refs@[addr as int],
    {
        pool.unit(self.get_call().code).refs[addr]
    }

    /// Copies the value of register `src` into register `dst` of the active
    /// frame. Compound values copy their handle: both registers then alias
    /// the same cell.
    pub fn copy(&mut self, dst: Register, src: Register)
        requires
            old(self).call_stack@.len() > 0,
            dst < old(self).call_stack@.last().stack@.len(),
            src < old(self).call_stack@.last().stack@.len(),
        ensures
            same_but_top(*old(self), *final(self)),
            frame_reg_set(
                old(self).call_stack@.last(),
                final(self).call_stack@.last(),
                dst as int,
                old(self).call_stack@.last().stack@[src as int],
            ),
    {
        let v = self.register(src).clone();
        self.set_register(dst, v);
    }

    /// Sets the active frame's instruction pointer to the absolute address
    /// `addr`: jumps replace the pointer, they never also advance it.
    pub fn jump(&mut self, addr: Address)
        requires
            old(self).call_stack@.len() > 0,
        ensures
            same_but_top(*old(self), *final(self)),
            ({
                let f0 = old(self).call_stack@.last();
                let f1 = final(self).call_stack@.last();
                f1.code == f0.code && f1.dst == f0.dst && f1.stack == f0.stack && f1.ip == addr
            }),
    {
        let c = self.get_call_mut();
        c.ip = addr;
    }

    /// Calls a function value: arguments were gathered from the caller's
    /// frame, `dst` is the caller register that will receive the return value.
    /// An interpreted function pushes a fresh frame (default-filled registers,
    /// leading ones overwritten by the arguments); a native callable is handed
    /// back for the host to run.
    pub fn call(&mut self, pool: &CodePool, f: &FnKind, args: Vec<Value>, dst: Register) -> (r:
        Result<Invoked, VmError>)
        ensures
            match *f {
                FnKind::Fn(cid) => {
                    if cid < pool.units@.len() {
                        &&& r == Ok::<Invoked, VmError>(Invoked::Pushed)
                        &&& final(self).globals == old(self).globals
                        &&& final(self).call_stack@.len() == old(self).call_stack@.len() + 1
                        &&& forall|j: int|
                            0 <= j < old(self).call_stack@.len() ==> final(self).call_stack@[j]
                                == old(self).call_stack@[j]
                        &&& ({
                            let top = final(self).call_stack@.last();
                            top.code == cid && top.ip == 0 && top.dst == dst && top.stack@
                                == fresh_stack(args@, pool.units@[cid as int].registers as int)
                        })
                    } else {
                        r == Err::<Invoked, VmError>(VmError::MalformedBytecode) && *final(self)
                            == *old(self)
                    }
                },
                FnKind::NativeFn(id) => *final(self) == *old(self) && (r matches Ok(
                    Invoked::Native { id: i2, args: a2, dst: d2 },
                ) && i2 == id && a2 == args && d2 == dst),
            },
    {
        match f {
            FnKind::Fn(cid) => {
                let cid = *cid;
                if cid >= pool.units.len() {
                    return Err(VmError::MalformedBytecode);
                }
                let n = pool.unit(cid).registers as usize;
                let mut stack: Vec<Value> = Vec::new();
                let mut i: usize = 0;
                while i < n
                    invariant
                        i <= n,
                        stack@.len() == i,
                        forall|j: int|
                            0 <= j < i ==> stack@[j] == fresh_stack(args@, n as int)[j],
                    decreases n - i,
                {
                    if i < args.len() {
                        stack.push(args[i].clone());
                    } else {
                        stack.push(Value::Nil);
                    }
                    i = i + 1;
                }
                proof {
                    assert(stack@ =~= fresh_stack(args@, n as int));
                }
                self.call_stack.push(Call { code: cid, ip: 0, stack, dst });
                Ok(Invoked::Pushed)
            },
            FnKind::NativeFn(id) => Ok(Invoked::Native { id: *id, args, dst }),
        }
    }

    /// Pops the active frame and hands the value of its register `src` (the
    /// absence marker when `src` is absent) to the parent frame's destination
    /// register; the parent resumes at its saved instruction pointer. When the
    /// popped frame was the root, the value is simply returned. On an error
    /// the machine is left unchanged.
    pub fn return_call(&mut self, src: Option<Register>) -> (r: Result<Value, VmError>)
        ensures
            ({
                let n = old(self).call_stack@.len() as int;
                if n == 0 {
                    r == Err::<Value, VmError>(VmError::StackDiscipline) && *final(self) == *old(
                        self,
                    )
                } else {
                    let top = old(self).call_stack@.last();
                    match src {
                        Some(s) => if s < top.stack@.len() {
                            return_post(*old(self), *final(self), top.stack@[s as int], r)
                        } else {
                            r == Err::<Value, VmError>(VmError::MalformedBytecode) && *final(self)
                                == *old(self)
                        },
                        None => return_post(*old(self), *final(self), Value::Nil, r),
                    }
                }
            }),
    {
        let n = self.call_stack.len();
        if n == 0 {
            return Err(VmError::StackDiscipline);
        }
        let value = match src {
            Some(s) => {
                let top = self.get_call();
                if (s as usize) >= top.stack.len() {
                    return Err(VmError::MalformedBytecode);
                }
                top.stack[s as usize].clone()
            },
            None => Value::Nil,
        };
        if n == 1 {
            let _ = self.call_stack.pop();
            proof {
                assert(self.call_stack@ =~= Seq::<Call>::empty());
            }
            return Ok(value);
        }
        let dst = self.get_call().dst;
        let parent = &self.call_stack[n - 2];
        if (dst as usize) >= parent.stack.len() {
            return Err(VmError::MalformedBytecode);
        }
        let _ = self.call_stack.pop();
        self.set_register(dst, value.clone());
        Ok(value)
    }
}

} // verus!
