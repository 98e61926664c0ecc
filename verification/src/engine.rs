//! The fetch-decode-execute engine.
//!
//! [`Vm::step`] reads the instruction at the active frame's instruction
//! pointer, advances the pointer, and performs the instruction's effect; a
//! jump sets the pointer to its target instead. Its whole behaviour is pinned
//! by [`step_post`], one case per instruction. The engine never runs
//! host-supplied natives itself: a call to one comes back as
//! [`Step::Native`], the host runs it and hands the result to
//! [`Vm::native_return`] — so a native may freely re-enter the machine
//! through [`Vm::call`] and the globals while it holds it.
use vstd::prelude::*;
use crate::code::{ByteCode, Code, CodePool, Register};
use crate::error::VmError;
use crate::heap::{assoc_get, assoc_index, assoc_insert, entries_of, items_of, Heap, Slot};
use crate::value::{Class, FnKind, Value};
use crate::vm::{fresh_stack, frame_reg_set, globals_ok, same_but_top, Call, Invoked, Vm};

verus! {

/// What one step of the engine produced.
pub enum Step {
    /// An instruction retired; the machine can step again.
    KeepGoing,
    /// The root frame returned: execution finished with this value.
    Done(Value),
    /// The bytecode called the host native `id` on `args`; the host must run
    /// it and give the result to [`Vm::native_return`] with the same `dst`.
    Native { id: u64, args: Vec<Value>, dst: Register },
}

/// The machine has an active frame.
pub open spec fn has_frame(vm: Vm) -> bool {
    vm.call_stack@.len() > 0
}

/// The active frame.
pub open spec fn cur_frame(vm: Vm) -> Call {
    vm.call_stack@.last()
}

/// The active frame's code unit.
pub open spec fn cur_code(vm: Vm, pool: CodePool) -> Code {
    pool.units@[cur_frame(vm).code as int]
}

/// The fetch is possible: a frame exists, its code handle is live and its
/// instruction pointer is a valid instruction index.
pub open spec fn fetch_ok(vm: Vm, pool: CodePool) -> bool {
    &&& has_frame(vm)
    &&& cur_frame(vm).code < pool.units@.len()
    &&& cur_frame(vm).ip < cur_code(vm, pool).bytecodes@.len()
}

/// The instruction about to execute.
pub open spec fn cur_instr(vm: Vm, pool: CodePool) -> ByteCode {
    cur_code(vm, pool).bytecodes@[cur_frame(vm).ip as int]
}

/// Execution failed with `e` and touched nothing.
pub open spec fn failed(
    h0: Heap,
    v0: Vm,
    h1: Heap,
    v1: Vm,
    r: Result<Step, VmError>,
    e: VmError,
) -> bool {
    &&& r == Err::<Step, VmError>(e)
    &&& v1 == v0
    &&& h1 == h0
}

/// The machine retired one instruction inside the top frame: same frames
/// below, same code and destination on top, pointer now at `ip1`, register
/// file now `stack1`.
pub open spec fn top_step(v0: Vm, v1: Vm, ip1: int, stack1: Seq<Value>) -> bool {
    &&& same_but_top(v0, v1)
    &&& cur_frame(v1).code == cur_frame(v0).code
    &&& cur_frame(v1).dst == cur_frame(v0).dst
    &&& cur_frame(v1).ip == ip1
    &&& cur_frame(v1).stack@ == stack1
}

/// `h1` is `h0` with one fresh cell appended.
pub open spec fn heap_grew(h0: Heap, h1: Heap) -> bool {
    &&& h1.slots@.len() == h0.slots@.len() + 1
    &&& forall|j: int| 0 <= j < h0.slots@.len() ==> h1.slots@[j] == h0.slots@[j]
}

/// `h1` is `h0` with at most cell `k` changed.
pub open spec fn heap_same_except(h0: Heap, h1: Heap, k: int) -> bool {
    &&& h1.slots@.len() == h0.slots@.len()
    &&& forall|j: int| 0 <= j < h0.slots@.len() && j != k ==> h1.slots@[j] == h0.slots@[j]
}

/// The first index of `key` in a field-name list, if any.
pub open spec fn str_index(names: Seq<String>, key: Seq<char>) -> Option<int>
    decreases names.len(),
{
    if names.len() == 0 {
        None
    } else if names[0]@ == key {
        Some(0)
    } else {
        match str_index(names.drop_first(), key) {
            Some(i) => Some(i + 1),
            None => None,
        }
    }
}

/// Registers `start..start+amount` all hold strings.
pub open spec fn range_all_str(s: Seq<Value>, start: int, amount: int) -> bool {
    forall|i: int| 0 <= i < amount ==> #[trigger] s[start + i] is Str
}

/// Registers `start..end` all hold function values.
pub open spec fn range_all_fn(s: Seq<Value>, start: int, end: int) -> bool {
    forall|i: int| start <= i < end ==> #[trigger] s[i] is Fn
}

/// What executing the conditional-jump test gives: branch exactly when the
/// tested condition differs from the polarity flag `not`.
pub open spec fn branch_target(cond: bool, not: bool, addr: int, ip: int) -> int {
    if cond != not {
        addr
    } else {
        ip + 1
    }
}

/// The full transition relation of one engine step: given the machine and
/// heap before (`v0`, `h0`) and after (`v1`, `h1`) and the step's result `r`,
/// says exactly what the executed instruction did. One case per instruction.
pub open spec fn step_post(
    pool: CodePool,
    h0: Heap,
    v0: Vm,
    h1: Heap,
    v1: Vm,
    r: Result<Step, VmError>,
) -> bool {
    if !has_frame(v0) {
        failed(h0, v0, h1, v1, r, VmError::StackDiscipline)
    } else if !(cur_frame(v0).code < pool.units@.len() && cur_frame(v0).ip < cur_code(
        v0,
        pool,
    ).bytecodes@.len()) {
        failed(h0, v0, h1, v1, r, VmError::MalformedBytecode)
    } else {
        let f = cur_frame(v0);
        let s = f.stack@;
        let ip = f.ip as int;
        let code = cur_code(v0, pool);
        let keep_going = r == Ok::<Step, VmError>(Step::KeepGoing);
        match cur_instr(v0, pool) {
            ByteCode::Noop => keep_going && h1 == h0 && top_step(v0, v1, ip + 1, s),
            ByteCode::Jump { addr } => keep_going && h1 == h0 && top_step(v0, v1, addr as int, s),
            ByteCode::JumpIf { not, src, addr } => {
                if src >= s.len() {
                    failed(h0, v0, h1, v1, r, VmError::MalformedBytecode)
                } else {
                    match s[src as int] {
                        Value::Bool(b) => keep_going && h1 == h0 && top_step(
                            v0,
                            v1,
                            branch_target(b, not, addr as int, ip),
                            s,
                        ),
                        _ => failed(h0, v0, h1, v1, r, VmError::TypeError),
                    }
                }
            },
            ByteCode::JumpIfSome { not, src, addr } => {
                if src >= s.len() {
                    failed(h0, v0, h1, v1, r, VmError::MalformedBytecode)
                } else {
                    keep_going && h1 == h0 && top_step(
                        v0,
                        v1,
                        branch_target(!(s[src as int] is Nil), not, addr as int, ip),
                        s,
                    )
                }
            },
            ByteCode::Copy { dst, src } => {
                if dst >= s.len() || src >= s.len() {
                    failed(h0, v0, h1, v1, r, VmError::MalformedBytecode)
                } else {
                    keep_going && h1 == h0 && top_step(
                        v0,
                        v1,
                        ip + 1,
                        s.update(dst as int, s[src as int]),
                    )
                }
            },
            ByteCode::Global { dst, addr } => {
                if !globals_ok(v0, h0) || dst >= s.len() || addr >= code.strings@.len() {
                    failed(h0, v0, h1, v1, r, VmError::MalformedBytecode)
                } else {
                    let name = code.strings@[addr as int];
                    let read = match assoc_get(
                        entries_of(h0.slots@[v0.globals as int]),
                        name@,
                    ) {
                        Some(v) => v,
                        None => Value::Nil,
                    };
                    keep_going && h1 == h0 && top_step(v0, v1, ip + 1, s.update(dst as int, read))
                }
            },
            ByteCode::SetGlobal { addr, src } => {
                if !globals_ok(v0, h0) || src >= s.len() || addr >= code.strings@.len() {
                    failed(h0, v0, h1, v1, r, VmError::MalformedBytecode)
                } else {
                    let name = code.strings@[addr as int];
                    let e0 = entries_of(h0.slots@[v0.globals as int]);
                    let e1 = entries_of(h1.slots@[v0.globals as int]);
                    &&& keep_going
                    &&& top_step(v0, v1, ip + 1, s)
                    &&& heap_same_except(h0, h1, v0.globals as int)
                    &&& h1.slots@[v0.globals as int] is Globals
                    &&& match assoc_index(e0, name@) {
                        Some(i) => e1 =~= e0.update(i, (name, s[src as int])),
                        None => e1 =~= e0.push((name, s[src as int])),
                    }
                }
            },
            ByteCode::Field { dst, head, field } => {
                if dst >= s.len() || head >= s.len() || field >= s.len() {
                    failed(h0, v0, h1, v1, r, VmError::MalformedBytecode)
                } else {
                    match s[head as int] {
                        Value::Mapping(m) => {
                            if m >= h0.slots@.len() || !(h0.slots@[m as int] is Mapping) {
                                failed(h0, v0, h1, v1, r, VmError::MalformedBytecode)
                            } else {
                                match s[field as int] {
                                    Value::Str(k) => {
                                        let read = match assoc_get(
                                            entries_of(h0.slots@[m as int]),
                                            k@,
                                        ) {
                                            Some(v) => v,
                                            None => Value::Nil,
                                        };
                                        keep_going && h1 == h0 && top_step(
                                            v0,
                                            v1,
                                            ip + 1,
                                            s.update(dst as int, read),
                                        )
                                    },
                                    _ => failed(h0, v0, h1, v1, r, VmError::TypeError),
                                }
                            }
                        },
                        Value::Object(oid) => {
                            if oid >= h0.slots@.len() || !(h0.slots@[oid as int] is Object) {
                                failed(h0, v0, h1, v1, r, VmError::MalformedBytecode)
                            } else {
                                let ob = h0.slots@[oid as int]->Object_0;
                                match s[field as int] {
                                    Value::Str(k) => {
                                        if ob.class >= h0.slots@.len() || !(h0.slots@[
                                            ob.class as int
                                        ] is Class) {
                                            failed(h0, v0, h1, v1, r, VmError::MalformedBytecode)
                                        } else {
                                            let cls = h0.slots@[ob.class as int]->Class_0;
                                            match str_index(cls.fields@, k@) {
                                                Some(i) => {
                                                    if ob.values >= h0.slots@.len() || !(h0.slots@[
                                                        ob.values as int
                                                    ] is Tuple) || i >= items_of(
                                                        h0.slots@[ob.values as int],
                                                    ).len() {
                                                        failed(
                                                            h0,
                                                            v0,
                                                            h1,
                                                            v1,
                                                            r,
                                                            VmError::MalformedBytecode,
                                                        )
                                                    } else {
                                                        keep_going && h1 == h0 && top_step(
                                                            v0,
                                                            v1,
                                                            ip + 1,
                                                            s.update(
                                                                dst as int,
                                                                items_of(
                                                                    h0.slots@[ob.values as int],
                                                                )[i],
                                                            ),
                                                        )
                                                    }
                                                },
                                                None => failed(h0, v0, h1, v1, r, VmError::TypeError),
                                            }
                                        }
                                    },
                                    _ => failed(h0, v0, h1, v1, r, VmError::TypeError),
                                }
                            }
                        },
                        _ => failed(h0, v0, h1, v1, r, VmError::TypeError),
                    }
                }
            },
            ByteCode::SetField { head, field, src } => {
                if head >= s.len() || field >= s.len() || src >= s.len() {
                    failed(h0, v0, h1, v1, r, VmError::MalformedBytecode)
                } else {
                    match s[head as int] {
                        Value::Mapping(m) => {
                            if m >= h0.slots@.len() || !(h0.slots@[m as int] is Mapping) {
                                failed(h0, v0, h1, v1, r, VmError::MalformedBytecode)
                            } else {
                                match s[field as int] {
                                    Value::Str(k) => {
                                        let e0 = entries_of(h0.slots@[m as int]);
                                        let e1 = entries_of(h1.slots@[m as int]);
                                        &&& keep_going
                                        &&& top_step(v0, v1, ip + 1, s)
                                        &&& heap_same_except(h0, h1, m as int)
                                        &&& h1.slots@[m as int] is Mapping
                                        &&& match assoc_index(e0, k@) {
                                            Some(i) => e1 =~= e0.update(i, (k, s[src as int])),
                                            None => e1 =~= e0.push((k, s[src as int])),
                                        }
                                    },
                                    _ => failed(h0, v0, h1, v1, r, VmError::TypeError),
                                }
                            }
                        },
                        Value::Object(oid) => {
                            if oid >= h0.slots@.len() || !(h0.slots@[oid as int] is Object) {
                                failed(h0, v0, h1, v1, r, VmError::MalformedBytecode)
                            } else {
                                let ob = h0.slots@[oid as int]->Object_0;
                                match s[field as int] {
                                    Value::Str(k) => {
                                        if ob.class >= h0.slots@.len() || !(h0.slots@[
                                            ob.class as int
                                        ] is Class) {
                                            failed(h0, v0, h1, v1, r, VmError::MalformedBytecode)
                                        } else {
                                            let cls = h0.slots@[ob.class as int]->Class_0;
                                            match str_index(cls.fields@, k@) {
                                                Some(i) => {
                                                    if ob.values >= h0.slots@.len() || !(h0.slots@[
                                                        ob.values as int
                                                    ] is Tuple) || i >= items_of(
                                                        h0.slots@[ob.values as int],
                                                    ).len() {
                                                        failed(
                                                            h0,
                                                            v0,
                                                            h1,
                                                            v1,
                                                            r,
                                                            VmError::MalformedBytecode,
                                                        )
                                                    } else {
                                                        &&& keep_going
                                                        &&& top_step(v0, v1, ip + 1, s)
                                                        &&& heap_same_except(
                                                            h0,
                                                            h1,
                                                            ob.values as int,
                                                        )
                                                        &&& h1.slots@[ob.values as int] is Tuple
                                                        &&& items_of(h1.slots@[ob.values as int])
                                                            =~= items_of(
                                                            h0.slots@[ob.values as int],
                                                        ).update(i, s[src as int])
                                                    }
                                                },
                                                None => failed(h0, v0, h1, v1, r, VmError::TypeError),
                                            }
                                        }
                                    },
                                    _ => failed(h0, v0, h1, v1, r, VmError::TypeError),
                                }
                            }
                        },
                        _ => failed(h0, v0, h1, v1, r, VmError::TypeError),
                    }
                }
            },
            ByteCode::Call { dst, start, amount } => {
                if dst >= s.len() || start as int + amount as int > s.len() {
                    failed(h0, v0, h1, v1, r, VmError::MalformedBytecode)
                } else {
                    match s[dst as int] {
                        Value::Fn(kind) => {
                            let args = s.subrange(start as int, start as int + amount as int);
                            match kind {
                                FnKind::Fn(cid) => {
                                    if cid >= pool.units@.len() {
                                        failed(h0, v0, h1, v1, r, VmError::MalformedBytecode)
                                    } else {
                                        &&& keep_going
                                        &&& h1 == h0
                                        &&& v1.globals == v0.globals
                                        &&& v1.call_stack@.len() == v0.call_stack@.len() + 1
                                        &&& forall|j: int|
                                            0 <= j < v0.call_stack@.len() - 1
                                                ==> v1.call_stack@[j] == v0.call_stack@[j]
                                        &&& ({
                                            let caller = v1.call_stack@[v0.call_stack@.len() - 1];
                                            caller.code == f.code && caller.dst == f.dst
                                                && caller.ip == ip + 1 && caller.stack@ == s
                                        })
                                        &&& ({
                                            let top = cur_frame(v1);
                                            top.code == cid && top.ip == 0 && top.dst == dst
                                                && top.stack@ == fresh_stack(
                                                args,
                                                pool.units@[cid as int].registers as int,
                                            )
                                        })
                                    }
                                },
                                FnKind::NativeFn(id) => {
                                    &&& h1 == h0
                                    &&& top_step(v0, v1, ip + 1, s)
                                    &&& (r matches Ok(Step::Native { id: i2, args: a2, dst: d2 })
                                        && i2 == id && a2@ == args && d2 == dst)
                                },
                            }
                        },
                        _ => failed(h0, v0, h1, v1, r, VmError::TypeError),
                    }
                }
            },
            ByteCode::Return { src } => {
                match src {
                    Some(sr) => {
                        if sr >= s.len() {
                            failed(h0, v0, h1, v1, r, VmError::MalformedBytecode)
                        } else {
                            h1 == h0 && return_step_post(v0, v1, s[sr as int], r)
                        }
                    },
                    None => h1 == h0 && return_step_post(v0, v1, Value::Nil, r),
                }
            },
            ByteCode::Nil { dst } => {
                if dst >= s.len() {
                    failed(h0, v0, h1, v1, r, VmError::MalformedBytecode)
                } else {
                    keep_going && h1 == h0 && top_step(
                        v0,
                        v1,
                        ip + 1,
                        s.update(dst as int, Value::Nil),
                    )
                }
            },
            ByteCode::Int { dst, value } => {
                if dst >= s.len() {
                    failed(h0, v0, h1, v1, r, VmError::MalformedBytecode)
                } else {
                    keep_going && h1 == h0 && top_step(
                        v0,
                        v1,
                        ip + 1,
                        s.update(dst as int, Value::Int(value)),
                    )
                }
            },
            ByteCode::Float { dst, value } => {
                if dst >= s.len() {
                    failed(h0, v0, h1, v1, r, VmError::MalformedBytecode)
                } else {
                    keep_going && h1 == h0 && top_step(
                        v0,
                        v1,
                        ip + 1,
                        s.update(dst as int, Value::Float(value)),
                    )
                }
            },
            ByteCode::Bool { dst, value } => {
                if dst >= s.len() {
                    failed(h0, v0, h1, v1, r, VmError::MalformedBytecode)
                } else {
                    keep_going && h1 == h0 && top_step(
                        v0,
                        v1,
                        ip + 1,
                        s.update(dst as int, Value::Bool(value)),
                    )
                }
            },
            ByteCode::Char { dst, value } => {
                if dst >= s.len() {
                    failed(h0, v0, h1, v1, r, VmError::MalformedBytecode)
                } else {
                    keep_going && h1 == h0 && top_step(
                        v0,
                        v1,
                        ip + 1,
                        s.update(dst as int, Value::Char(value)),
                    )
                }
            },
            ByteCode::Str { dst, addr } => {
                if dst >= s.len() || addr >= code.strings@.len() {
                    failed(h0, v0, h1, v1, r, VmError::MalformedBytecode)
                } else {
                    keep_going && h1 == h0 && top_step(
                        v0,
                        v1,
                        ip + 1,
                        s.update(dst as int, Value::Str(code.strings@[addr as int])),
                    )
                }
            },
            ByteCode::Fn { dst, addr } => {
                if dst >= s.len() || addr >= code.refs@.len() {
                    failed(h0, v0, h1, v1, r, VmError::MalformedBytecode)
                } else {
                    keep_going && h1 == h0 && top_step(
                        v0,
                        v1,
                        ip + 1,
                        s.update(
                            dst as int,
                            Value::Fn(FnKind::Fn(code.refs@[addr as int])),
                        ),
                    )
                }
            },
            ByteCode::Tuple { dst, start, amount } => {
                if dst >= s.len() || start as int + amount as int > s.len() {
                    failed(h0, v0, h1, v1, r, VmError::MalformedBytecode)
                } else {
                    &&& keep_going
                    &&& heap_grew(h0, h1)
                    &&& h1.slots@.last() is Tuple
                    &&& items_of(h1.slots@.last()) =~= s.subrange(
                        start as int,
                        start as int + amount as int,
                    )
                    &&& top_step(
                        v0,
                        v1,
                        ip + 1,
                        s.update(dst as int, Value::Tuple(h0.slots@.len() as usize)),
                    )
                }
            },
            ByteCode::Vec { dst, start, amount } => {
                if dst >= s.len() || start as int + amount as int > s.len() {
                    failed(h0, v0, h1, v1, r, VmError::MalformedBytecode)
                } else {
                    &&& keep_going
                    &&& heap_grew(h0, h1)
                    &&& h1.slots@.last() is Vec
                    &&& items_of(h1.slots@.last()) =~= s.subrange(
                        start as int,
                        start as int + amount as int,
                    )
                    &&& top_step(
                        v0,
                        v1,
                        ip + 1,
                        s.update(dst as int, Value::Vec(h0.slots@.len() as usize)),
                    )
                }
            },
            ByteCode::Mapping { dst } => {
                if dst >= s.len() {
                    failed(h0, v0, h1, v1, r, VmError::MalformedBytecode)
                } else {
                    &&& keep_going
                    &&& heap_grew(h0, h1)
                    &&& h1.slots@.last() is Mapping
                    &&& entries_of(h1.slots@.last()) =~= Seq::<(String, Value)>::empty()
                    &&& top_step(
                        v0,
                        v1,
                        ip + 1,
                        s.update(dst as int, Value::Mapping(h0.slots@.len() as usize)),
                    )
                }
            },
            ByteCode::Class {
                dst,
                name_addr,
                fields_start,
                fields_amount,
                methods_start,
                methods_end,
                meta_methods_start,
                meta_methods_end,
            } => {
                if dst >= s.len() || name_addr >= code.strings@.len() || fields_start as int
                    + fields_amount as int > s.len() || methods_start > methods_end || methods_end
                    >= s.len() + 1 || meta_methods_start > meta_methods_end || meta_methods_end
                    >= s.len() + 1 || !range_all_str(s, fields_start as int, fields_amount as int)
                    || !range_all_fn(s, methods_start as int, methods_end as int) || !range_all_fn(
                    s,
                    meta_methods_start as int,
                    meta_methods_end as int,
                ) {
                    failed(h0, v0, h1, v1, r, VmError::MalformedBytecode)
                } else {
                    &&& keep_going
                    &&& heap_grew(h0, h1)
                    &&& h1.slots@.last() is Class
                    &&& ({
                        let c = h1.slots@.last()->Class_0;
                        &&& c.name == code.strings@[name_addr as int]
                        &&& c.fields@.len() == fields_amount
                        &&& forall|i: int|
                            0 <= i < fields_amount ==> s[fields_start + i] == Value::Str(
                                c.fields@[i],
                            )
                        &&& c.methods@.len() == methods_end - methods_start
                        &&& forall|i: int|
                            0 <= i < c.methods@.len() ==> s[methods_start + i] == Value::Fn(
                                c.methods@[i],
                            )
                        &&& c.meta_methods@.len() == meta_methods_end - meta_methods_start
                        &&& forall|i: int|
                            0 <= i < c.meta_methods@.len() ==> s[meta_methods_start + i]
                                == Value::Fn(c.meta_methods@[i])
                    })
                    &&& top_step(
                        v0,
                        v1,
                        ip + 1,
                        s.update(dst as int, Value::Class(h0.slots@.len() as usize)),
                    )
                }
            },
            ByteCode::Box { reg } => {
                if reg >= s.len() {
                    failed(h0, v0, h1, v1, r, VmError::MalformedBytecode)
                } else {
                    &&& keep_going
                    &&& heap_grew(h0, h1)
                    &&& h1.slots@.last() == Slot::Box(s[reg as int])
                    &&& top_step(
                        v0,
                        v1,
                        ip + 1,
                        s.update(reg as int, Value::Box(h0.slots@.len() as usize)),
                    )
                }
            },
        }
    }
}

/// A whole run of the engine: either the budget is zero and nothing happened,
/// or one [`step_post`] transition leads to an intermediate state from which
/// the rest of the run continues — the chain ending at the first result that
/// is not [`Step::KeepGoing`], which the run hands back with the state the
/// chain reached.
pub open spec fn run_post(
    pool: CodePool,
    h0: Heap,
    v0: Vm,
    h1: Heap,
    v1: Vm,
    r: Result<Step, VmError>,
    fuel: nat,
) -> bool
    decreases fuel,
{
    if fuel == 0 {
        r == Ok::<Step, VmError>(Step::KeepGoing) && h1 == h0 && v1 == v0
    } else {
        exists|hm: Heap, vm: Vm, rs: Result<Step, VmError>|
            {
                &&& #[trigger] step_post(pool, h0, v0, hm, vm, rs)
                &&& if rs == Ok::<Step, VmError>(Step::KeepGoing) {
                    run_post(pool, hm, vm, h1, v1, r, (fuel - 1) as nat)
                } else {
                    r == rs && h1 == hm && v1 == vm
                }
            }
    }
}

/// The `Return` case of [`step_post`]: a root return finishes with
/// [`Step::Done`], any other return is [`crate::vm::return_post`] plus
/// [`Step::KeepGoing`].
pub open spec fn return_step_post(v0: Vm, v1: Vm, v: Value, r: Result<Step, VmError>) -> bool {
    if v0.call_stack@.len() == 1 {
        &&& r == Ok::<Step, VmError>(Step::Done(v))
        &&& v1.globals == v0.globals
        &&& v1.call_stack@ == Seq::<Call>::empty()
    } else {
        let parent = v0.call_stack@[v0.call_stack@.len() - 2];
        if cur_frame(v0).dst >= parent.stack@.len() {
            r == Err::<Step, VmError>(VmError::MalformedBytecode) && v1 == v0
        } else {
            &&& r == Ok::<Step, VmError>(Step::KeepGoing)
            &&& v1.globals == v0.globals
            &&& v1.call_stack@.len() == v0.call_stack@.len() - 1
            &&& forall|j: int|
                0 <= j < v0.call_stack@.len() - 2 ==> v1.call_stack@[j] == v0.call_stack@[j]
            &&& frame_reg_set(parent, cur_frame(v1), cur_frame(v0).dst as int, v)
        }
    }
}


/// A witness of a first match pins `str_index` down.
pub proof fn lemma_str_index_of_first_match(names: Seq<String>, key: Seq<char>, i: int)
    requires
        0 <= i < names.len(),
        names[i]@ == key,
        forall|j: int| 0 <= j < i ==> names[j]@ != key,
    ensures
        str_index(names, key) == Some(i),
    decreases names.len(),
{
    if i > 0 {
        lemma_str_index_of_first_match(names.drop_first(), key, i - 1);
    }
}

/// With no match at all, `str_index` finds none.
pub proof fn lemma_str_index_of_no_match(names: Seq<String>, key: Seq<char>)
    requires
        forall|j: int| 0 <= j < names.len() ==> names[j]@ != key,
    ensures
        str_index(names, key) == None::<int>,
    decreases names.len(),
{
    if names.len() > 0 {
        lemma_str_index_of_no_match(names.drop_first(), key);
    }
}

/// The first index of `key` in a field-name list.
pub fn find_str(names: &Vec<String>, key: &String) -> (r: Option<usize>)
    ensures
        match r {
            Some(i) => str_index(names@, key@) == Some(i as int),
            None => str_index(names@, key@) == None::<int>,
        },
{
    let n = names.len();
    let mut i: usize = 0;
    while i < n
        invariant
            n == names@.len(),
            i <= n,
            forall|j: int| 0 <= j < i ==> names@[j]@ != key@,
        decreases n - i,
    {
        if names[i] == *key {
            proof {
                lemma_str_index_of_first_match(names@, key@, i as int);
            }
            return Some(i);
        }
        i = i + 1;
    }
    proof {
        lemma_str_index_of_no_match(names@, key@);
    }
    None
}

impl Vm {
    /// Gathers the string payloads of registers `start..start+amount`; fails
    /// as malformed bytecode when one of them holds anything else (a class
    /// instruction whose ranges were never populated).
    fn collect_strings(&self, start: Register, amount: Register) -> (r: Result<
        Vec<String>,
        VmError,
    >)
        requires
            has_frame(*self),
            start as int + amount as int <= cur_frame(*self).stack@.len(),
        ensures
            match r {
                Ok(v) => {
                    &&& v@.len() == amount
                    &&& forall|i: int|
                        0 <= i < amount ==> cur_frame(*self).stack@[start + i] == Value::Str(
                            v@[i],
                        )
                    &&& range_all_str(cur_frame(*self).stack@, start as int, amount as int)
                },
                Err(e) => e == VmError::MalformedBytecode && !range_all_str(
                    cur_frame(*self).stack@,
                    start as int,
                    amount as int,
                ),
            },
    {
        let mut v: Vec<String> = Vec::new();
        let mut i: usize = 0;
        let c = self.get_call();
        while i < amount as usize
            invariant
                *c == cur_frame(*self),
                has_frame(*self),
                start as int + amount as int <= c.stack@.len(),
                i <= amount as usize,
                v@.len() == i,
                forall|j: int|
                    0 <= j < i ==> cur_frame(*self).stack@[start + j] == Value::Str(v@[j]),
            decreases amount as int - i,
    {
            match &c.stack[start as usize + i] {
                Value::Str(sv) => v.push(sv.clone()),
                _ => {
                    proof {
                        assert(!(cur_frame(*self).stack@[start + i as int] is Str));
                    }
                    return Err(VmError::MalformedBytecode);
                },
            }
            i = i + 1;
        }
        proof {
            assert forall|i: int| 0 <= i < amount implies #[trigger] cur_frame(
                *self,
            ).stack@[start + i] is Str by {
                assert(cur_frame(*self).stack@[start + i] == Value::Str(v@[i]));
            }
        }
        Ok(v)
    }

    /// Gathers the function payloads of registers `start..end`; fails as
    /// malformed bytecode when one of them holds anything else.
    fn collect_fns(&self, start: Register, end: Register) -> (r: Result<Vec<FnKind>, VmError>)
        requires
            has_frame(*self),
            start <= end,
            end as int <= cur_frame(*self).stack@.len(),
        ensures
            match r {
                Ok(v) => {
                    &&& v@.len() == end - start
                    &&& forall|i: int|
                        0 <= i < v@.len() ==> cur_frame(*self).stack@[start + i] == Value::Fn(
                            v@[i],
                        )
                    &&& range_all_fn(cur_frame(*self).stack@, start as int, end as int)
                },
                Err(e) => e == VmError::MalformedBytecode && !range_all_fn(
                    cur_frame(*self).stack@,
                    start as int,
                    end as int,
                ),
            },
    {
        let mut v: Vec<FnKind> = Vec::new();
        let mut i: usize = start as usize;
        let c = self.get_call();
        while i < end as usize
            invariant
                *c == cur_frame(*self),
                has_frame(*self),
                start <= end,
                end as int <= c.stack@.len(),
                start as usize <= i <= end as usize,
                v@.len() == i - start as usize,
                forall|j: int|
                    0 <= j < v@.len() ==> cur_frame(*self).stack@[start + j] == Value::Fn(v@[j]),
            decreases end as int - i,
    {
            match &c.stack[i] {
                Value::Fn(k) => v.push(*k),
                _ => {
                    proof {
                        assert(!(cur_frame(*self).stack@[i as int] is Fn));
                    }
                    return Err(VmError::MalformedBytecode);
                },
            }
            i = i + 1;
        }
        proof {
            assert forall|i: int| start <= i < end implies #[trigger] cur_frame(
                *self,
            ).stack@[i] is Fn by {
                assert(cur_frame(*self).stack@[i] == Value::Fn(v@[i - start]));
            }
        }
        Ok(v)
    }

    /// Hands the result of a host-run native call to the caller register the
    /// engine named in [`Step::Native`].
    pub fn native_return(&mut self, value: Value, dst: Register) -> (r: Result<(), VmError>)
        ensures
            if has_frame(*old(self)) && (dst as int) < cur_frame(*old(self)).stack@.len() {
                &&& r == Ok::<(), VmError>(())
                &&& same_but_top(*old(self), *final(self))
                &&& frame_reg_set(
                    cur_frame(*old(self)),
                    cur_frame(*final(self)),
                    dst as int,
                    value,
                )
            } else {
                r == Err::<(), VmError>(VmError::MalformedBytecode) && *final(self) == *old(self)
            },
    {
        if self.call_stack.len() == 0 {
            return Err(VmError::MalformedBytecode);
        }
        if dst as usize >= self.get_call().stack.len() {
            return Err(VmError::MalformedBytecode);
        }
        self.set_register(dst, value);
        Ok(())
    }

    /// One turn of the fetch-decode-execute loop. Everything it may do is
    /// pinned, instruction by instruction, in [`step_post`].
    pub fn step(&mut self, heap: &mut Heap, pool: &CodePool) -> (r: Result<Step, VmError>)
        ensures
            step_post(*pool, *old(heap), *old(self), *final(heap), *final(self), r),
            final(heap).slots@.len() >= old(heap).slots@.len(),
            forall|j: int|
                0 <= j < old(heap).slots@.len() && old(heap).slots@[j] is Coroutine
                    ==> final(heap).slots@[j] == old(heap).slots@[j],
    {
        if self.call_stack.len() == 0 {
            return Err(VmError::StackDiscipline);
        }
        let code_id = self.get_call().code;
        if code_id >= pool.units.len() {
            return Err(VmError::MalformedBytecode);
        }
        let ip = self.get_call().ip;
        let unit = pool.unit(code_id);
        if ip >= unit.bytecodes.len() {
            return Err(VmError::MalformedBytecode);
        }
        let instr = unit.bytecodes[ip];
        let nregs = self.get_call().stack.len();
        match instr {
            ByteCode::Noop => {
                self.jump(ip + 1);
                Ok(Step::KeepGoing)
            },
            ByteCode::Jump { addr } => {
                self.jump(addr);
                Ok(Step::KeepGoing)
            },
            ByteCode::JumpIf { not, src, addr } => {
                if src as usize >= nregs {
                    return Err(VmError::MalformedBytecode);
                }
                let b = match self.register(src) {
                    Value::Bool(b) => *b,
                    _ => {
                        return Err(VmError::TypeError);
                    },
                };
                self.jump(if b != not { addr } else { ip + 1 });
                Ok(Step::KeepGoing)
            },
            ByteCode::JumpIfSome { not, src, addr } => {
                if src as usize >= nregs {
                    return Err(VmError::MalformedBytecode);
                }
                let some = match self.register(src) {
                    Value::Nil => false,
                    _ => true,
                };
                self.jump(if some != not { addr } else { ip + 1 });
                Ok(Step::KeepGoing)
            },
            ByteCode::Copy { dst, src } => {
                if dst as usize >= nregs || src as usize >= nregs {
                    return Err(VmError::MalformedBytecode);
                }
                self.copy(dst, src);
                self.jump(ip + 1);
                Ok(Step::KeepGoing)
            },
            ByteCode::Global { dst, addr } => {
                if self.globals >= heap.len() {
                    return Err(VmError::MalformedBytecode);
                }
                let gok = match heap.slot(self.globals) {
                    Slot::Globals(_) => true,
                    _ => false,
                };
                if !gok || dst as usize >= nregs || addr >= unit.strings.len() {
                    return Err(VmError::MalformedBytecode);
                }
                let read = match self.global(heap, &unit.strings[addr]) {
                    Some(v) => v,
                    None => Value::Nil,
                };
                self.jump(ip + 1);
                self.set_register(dst, read);
                Ok(Step::KeepGoing)
            },
            ByteCode::SetGlobal { addr, src } => {
                if self.globals >= heap.len() {
                    return Err(VmError::MalformedBytecode);
                }
                let gok = match heap.slot(self.globals) {
                    Slot::Globals(_) => true,
                    _ => false,
                };
                if !gok || src as usize >= nregs || addr >= unit.strings.len() {
                    return Err(VmError::MalformedBytecode);
                }
                let name = unit.strings[addr].clone();
                let value = self.register(src).clone();
                let _ = self.set_global(heap, name, value);
                self.jump(ip + 1);
                Ok(Step::KeepGoing)
            },
            ByteCode::Field { dst, head, field } => {
                if dst as usize >= nregs || head as usize >= nregs || field as usize >= nregs {
                    return Err(VmError::MalformedBytecode);
                }
                let hv = self.register(head).clone();
                match hv {
                    Value::Mapping(m) => {
                        if m >= heap.len() {
                            return Err(VmError::MalformedBytecode);
                        }
                        let read = match heap.slot(m) {
                            Slot::Mapping(e) => {
                                let k = match self.register(field) {
                                    Value::Str(kk) => kk.clone(),
                                    _ => {
                                        return Err(VmError::TypeError);
                                    },
                                };
                                match crate::heap::assoc_read(e, &k) {
                                    Some(v) => v,
                                    None => Value::Nil,
                                }
                            },
                            _ => {
                                return Err(VmError::MalformedBytecode);
                            },
                        };
                        self.jump(ip + 1);
                        self.set_register(dst, read);
                        Ok(Step::KeepGoing)
                    },
                    Value::Object(oid) => {
                        if oid >= heap.len() {
                            return Err(VmError::MalformedBytecode);
                        }
                        let ob = match heap.slot(oid) {
                            Slot::Object(o) => *o,
                            _ => {
                                return Err(VmError::MalformedBytecode);
                            },
                        };
                        let k = match self.register(field) {
                            Value::Str(kk) => kk.clone(),
                            _ => {
                                return Err(VmError::TypeError);
                            },
                        };
                        if ob.class >= heap.len() {
                            return Err(VmError::MalformedBytecode);
                        }
                        let idx = match heap.slot(ob.class) {
                            Slot::Class(c) => find_str(&c.fields, &k),
                            _ => {
                                return Err(VmError::MalformedBytecode);
                            },
                        };
                        let i = match idx {
                            Some(i) => i,
                            None => {
                                return Err(VmError::TypeError);
                            },
                        };
                        if ob.values >= heap.len() {
                            return Err(VmError::MalformedBytecode);
                        }
                        let read = match heap.slot(ob.values) {
                            Slot::Tuple(items) => {
                                if i >= items.len() {
                                    return Err(VmError::MalformedBytecode);
                                }
                                items[i].clone()
                            },
                            _ => {
                                return Err(VmError::MalformedBytecode);
                            },
                        };
                        self.jump(ip + 1);
                        self.set_register(dst, read);
                        Ok(Step::KeepGoing)
                    },
                    _ => Err(VmError::TypeError),
                }
            },
            ByteCode::SetField { head, field, src } => {
                if head as usize >= nregs || field as usize >= nregs || src as usize >= nregs {
                    return Err(VmError::MalformedBytecode);
                }
                let hv = self.register(head).clone();
                match hv {
                    Value::Mapping(m) => {
                        if m >= heap.len() {
                            return Err(VmError::MalformedBytecode);
                        }
                        let is_map = match heap.slot(m) {
                            Slot::Mapping(_) => true,
                            _ => false,
                        };
                        if !is_map {
                            return Err(VmError::MalformedBytecode);
                        }
                        let k = match self.register(field) {
                            Value::Str(kk) => kk.clone(),
                            _ => {
                                return Err(VmError::TypeError);
                            },
                        };
                        let value = self.register(src).clone();
                        match &mut heap.slots[m] {
                            Slot::Mapping(e) => {
                                let _ = assoc_insert(e, k, value);
                            },
                            _ => {
                                proof {
                                    assert(false);
                                }
                            },
                        }
                        self.jump(ip + 1);
                        Ok(Step::KeepGoing)
                    },
                    Value::Object(oid) => {
                        if oid >= heap.len() {
                            return Err(VmError::MalformedBytecode);
                        }
                        let ob = match heap.slot(oid) {
                            Slot::Object(o) => *o,
                            _ => {
                                return Err(VmError::MalformedBytecode);
                            },
                        };
                        let k = match self.register(field) {
                            Value::Str(kk) => kk.clone(),
                            _ => {
                                return Err(VmError::TypeError);
                            },
                        };
                        if ob.class >= heap.len() {
                            return Err(VmError::MalformedBytecode);
                        }
                        let idx = match heap.slot(ob.class) {
                            Slot::Class(c) => find_str(&c.fields, &k),
                            _ => {
                                return Err(VmError::MalformedBytecode);
                            },
                        };
                        let i = match idx {
                            Some(i) => i,
                            None => {
                                return Err(VmError::TypeError);
                            },
                        };
                        if ob.values >= heap.len() {
                            return Err(VmError::MalformedBytecode);
                        }
                        let shaped = match heap.slot(ob.values) {
                            Slot::Tuple(items) => i < items.len(),
                            _ => false,
                        };
                        if !shaped {
                            return Err(VmError::MalformedBytecode);
                        }
                        let value = self.register(src).clone();
                        match &mut heap.slots[ob.values] {
                            Slot::Tuple(items) => {
                                items.set(i, value);
                            },
                            _ => {
                                proof {
                                    assert(false);
                                }
                            },
                        }
                        self.jump(ip + 1);
                        Ok(Step::KeepGoing)
                    },
                    _ => Err(VmError::TypeError),
                }
            },
            ByteCode::Call { dst, start, amount } => {
                if dst as usize >= nregs || start as usize + amount as usize > nregs {
                    return Err(VmError::MalformedBytecode);
                }
                let kind = match self.register(dst) {
                    Value::Fn(k) => *k,
                    _ => {
                        return Err(VmError::TypeError);
                    },
                };
                match kind {
                    FnKind::Fn(cid) => {
                        if cid >= pool.units.len() {
                            return Err(VmError::MalformedBytecode);
                        }
                    },
                    FnKind::NativeFn(_) => {},
                }
                let args = self.registers(start, amount);
                self.jump(ip + 1);
                match self.call(pool, &kind, args, dst) {
                    Ok(Invoked::Pushed) => Ok(Step::KeepGoing),
                    Ok(Invoked::Native { id, args, dst }) => Ok(Step::Native { id, args, dst }),
                    Err(e) => {
                        proof {
                            assert(false);
                        }
                        Err(e)
                    },
                }
            },
            ByteCode::Return { src } => {
                let n = self.call_stack.len();
                match self.return_call(src) {
                    Ok(v) => if n == 1 {
                        Ok(Step::Done(v))
                    } else {
                        Ok(Step::KeepGoing)
                    },
                    Err(e) => Err(e),
                }
            },
            ByteCode::Nil { dst } => {
                if dst as usize >= nregs {
                    return Err(VmError::MalformedBytecode);
                }
                self.jump(ip + 1);
                self.set_register(dst, Value::Nil);
                Ok(Step::KeepGoing)
            },
            ByteCode::Int { dst, value } => {
                if dst as usize >= nregs {
                    return Err(VmError::MalformedBytecode);
                }
                self.jump(ip + 1);
                self.set_register(dst, Value::Int(value));
                Ok(Step::KeepGoing)
            },
            ByteCode::Float { dst, value } => {
                if dst as usize >= nregs {
                    return Err(VmError::MalformedBytecode);
                }
                self.jump(ip + 1);
                self.set_register(dst, Value::Float(value));
                Ok(Step::KeepGoing)
            },
            ByteCode::Bool { dst, value } => {
                if dst as usize >= nregs {
                    return Err(VmError::MalformedBytecode);
                }
                self.jump(ip + 1);
                self.set_register(dst, Value::Bool(value));
                Ok(Step::KeepGoing)
            },
            ByteCode::Char { dst, value } => {
                if dst as usize >= nregs {
                    return Err(VmError::MalformedBytecode);
                }
                self.jump(ip + 1);
                self.set_register(dst, Value::Char(value));
                Ok(Step::KeepGoing)
            },
            ByteCode::Str { dst, addr } => {
                if dst as usize >= nregs || addr >= unit.strings.len() {
                    return Err(VmError::MalformedBytecode);
                }
                let sv = unit.strings[addr].clone();
                self.jump(ip + 1);
                self.set_register(dst, Value::Str(sv));
                Ok(Step::KeepGoing)
            },
            ByteCode::Fn { dst, addr } => {
                if dst as usize >= nregs || addr >= unit.refs.len() {
                    return Err(VmError::MalformedBytecode);
                }
                let cid = unit.refs[addr];
                self.jump(ip + 1);
                self.set_register(dst, Value::Fn(FnKind::Fn(cid)));
                Ok(Step::KeepGoing)
            },
            ByteCode::Tuple { dst, start, amount } => {
                if dst as usize >= nregs || start as usize + amount as usize > nregs {
                    return Err(VmError::MalformedBytecode);
                }
                let items = self.registers(start, amount);
                let id = heap.add(Slot::Tuple(items));
                self.jump(ip + 1);
                self.set_register(dst, Value::Tuple(id));
                Ok(Step::KeepGoing)
            },
            ByteCode::Vec { dst, start, amount } => {
                if dst as usize >= nregs || start as usize + amount as usize > nregs {
                    return Err(VmError::MalformedBytecode);
                }
                let items = self.registers(start, amount);
                let id = heap.add(Slot::Vec(items));
                self.jump(ip + 1);
                self.set_register(dst, Value::Vec(id));
                Ok(Step::KeepGoing)
            },
            ByteCode::Mapping { dst } => {
                if dst as usize >= nregs {
                    return Err(VmError::MalformedBytecode);
                }
                let id = heap.add(Slot::Mapping(Vec::new()));
                self.jump(ip + 1);
                self.set_register(dst, Value::Mapping(id));
                Ok(Step::KeepGoing)
            },
            ByteCode::Class {
                dst,
                name_addr,
                fields_start,
                fields_amount,
                methods_start,
                methods_end,
                meta_methods_start,
                meta_methods_end,
            } => {
                if dst as usize >= nregs || name_addr >= unit.strings.len() || fields_start
                    as usize + fields_amount as usize > nregs || methods_start > methods_end
                    || methods_end as usize > nregs || meta_methods_start > meta_methods_end
                    || meta_methods_end as usize > nregs {
                    return Err(VmError::MalformedBytecode);
                }
                let fields = match self.collect_strings(fields_start, fields_amount) {
                    Ok(v) => v,
                    Err(e) => {
                        return Err(e);
                    },
                };
                let methods = match self.collect_fns(methods_start, methods_end) {
                    Ok(v) => v,
                    Err(e) => {
                        return Err(e);
                    },
                };
                let meta_methods = match self.collect_fns(meta_methods_start, meta_methods_end) {
                    Ok(v) => v,
                    Err(e) => {
                        return Err(e);
                    },
                };
                let name = unit.strings[name_addr].clone();
                let id = heap.add(Slot::Class(Class { name, fields, methods, meta_methods }));
                self.jump(ip + 1);
                self.set_register(dst, Value::Class(id));
                Ok(Step::KeepGoing)
            },
            ByteCode::Box { reg } => {
                if reg as usize >= nregs {
                    return Err(VmError::MalformedBytecode);
                }
                let v = self.register(reg).clone();
                let id = heap.add(Slot::Box(v));
                self.jump(ip + 1);
                self.set_register(reg, Value::Box(id));
                Ok(Step::KeepGoing)
            },
        }
    }

    /// Drives the machine until the root unit returns, a native call needs
    /// the host, an error aborts this machine instance, or the instruction
    /// budget `fuel` runs dry. Termination is otherwise the bytecode's
    /// business — a program may loop forever — so the budget makes every call
    /// finite: [`Step::KeepGoing`] means the budget was spent and the host
    /// should simply call again. The whole run is pinned by [`run_post`]: a
    /// chain of [`step_post`] transitions, ending at the first result that is
    /// not [`Step::KeepGoing`].
    pub fn run(&mut self, heap: &mut Heap, pool: &CodePool, fuel: u64) -> (r: Result<
        Step,
        VmError,
    >)
        ensures
            run_post(*pool, *old(heap), *old(self), *final(heap), *final(self), r, fuel as nat),
            final(heap).slots@.len() >= old(heap).slots@.len(),
            (r matches Ok(Step::Done(_))) ==> final(self).call_stack@.len() == 0,
            (r matches Ok(Step::Native { .. })) ==> has_frame(*final(self)),
        decreases fuel,
    {
        if fuel == 0 {
            return Ok(Step::KeepGoing);
        }
        let st = self.step(heap, pool);
        let ghost hm = *heap;
        let ghost vm_mid = *self;
        match st {
            Ok(Step::KeepGoing) => {
                let r = self.run(heap, pool, fuel - 1);
                proof {
                    assert(step_post(
                        *pool,
                        *old(heap),
                        *old(self),
                        hm,
                        vm_mid,
                        Ok::<Step, VmError>(Step::KeepGoing),
                    ));
                }
                r
            },
            Ok(other) => {
                proof {
                    assert(step_post(*pool, *old(heap), *old(self), hm, vm_mid, st));
                }
                Ok(other)
            },
            Err(e) => {
                proof {
                    assert(step_post(*pool, *old(heap), *old(self), hm, vm_mid, st));
                }
                Err(e)
            },
        }
    }
}

} // verus!
