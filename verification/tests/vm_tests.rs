use regvm::code::{ByteCode, Code, CodePool};
use regvm::coro::{coroutine_new, resume, CoEvent};
use regvm::engine::Step;
use regvm::eq::values_eq;
use regvm::error::VmError;
use regvm::heap::{Heap, Slot};
use regvm::render::{debug_string, display_string};
use regvm::value::{Class, FnKind, Object, Value};
use regvm::vm::Vm;

const FUEL: u64 = 64;
const BUDGET: u64 = 4096;

fn fresh_vm(heap: &mut Heap) -> Vm {
    Vm::init(heap, Vec::new())
}

/// Runs one code unit as the root frame and hands back the final value.
fn run_unit(pool: &CodePool, heap: &mut Heap, cid: usize, args: Vec<Value>) -> Result<Value, VmError> {
    let mut vm = fresh_vm(heap);
    vm.call(pool, &FnKind::Fn(cid), args, 0).unwrap();
    match vm.run(heap, pool, BUDGET)? {
        Step::Done(v) => Ok(v),
        _ => panic!("expected the root unit to finish"),
    }
}

#[test]
fn authoring_returns_stable_indices() {
    let mut code = Code::empty(2);
    assert_eq!(code.write(ByteCode::Nil { dst: 0 }), 0);
    assert_eq!(code.none(), 1);
    assert_eq!(code.write(ByteCode::Return { src: Some(0) }), 2);
    assert_eq!(code.new_string("hello".to_string()), 0);
    assert_eq!(code.new_string("world".to_string()), 1);
    assert_eq!(code.new_ref(5), 0);
    // Back-patch the placeholder as a compiler fixing a forward jump would.
    code.overwrite(1, ByteCode::Jump { addr: 2 });
    assert_eq!(code.bytecodes[1], ByteCode::Jump { addr: 2 });
    assert_eq!(code.strings[1], "world");
    assert_eq!(code.refs[0], 5);
}

#[test]
fn authoring_keeps_positions() {
    let mut code = Code::empty(1);
    let pos = parse_pos::Position::new(3..4, 7..9);
    let addr = code.write_pos(ByteCode::Nil { dst: 0 }, pos.clone());
    assert_eq!(code.positions.get(&addr), Some(&pos));
    let pos2 = parse_pos::Position::new(5..6, 1..2);
    code.overwrite_pos(addr, ByteCode::Noop, pos2.clone());
    assert_eq!(code.positions.get(&addr), Some(&pos2));
    assert_eq!(code.bytecodes[addr], ByteCode::Noop);
}

#[test]
fn sequence_construction_renders_like_a_literal() {
    // Construction instructions into a sequence yield exactly the source
    // registers: rendering must equal a literal [1, 2, 3] rendering.
    let mut pool = CodePool::new();
    let mut code = Code::empty(4);
    code.write(ByteCode::Int { dst: 0, value: 1 });
    code.write(ByteCode::Int { dst: 1, value: 2 });
    code.write(ByteCode::Int { dst: 2, value: 3 });
    code.write(ByteCode::Vec { dst: 3, start: 0, amount: 3 });
    code.write(ByteCode::Return { src: Some(3) });
    let cid = pool.add(code);
    let mut heap = Heap::new();
    let v = run_unit(&pool, &mut heap, cid, vec![]).unwrap();
    assert!(matches!(v, Value::Vec(_)));
    assert_eq!(debug_string(&heap, &v, FUEL).unwrap(), "[1, 2, 3]");
    assert_eq!(display_string(&heap, &v, FUEL).unwrap(), "[1, 2, 3]");
}

#[test]
fn tuple_and_mapping_construction_render_structurally() {
    let mut pool = CodePool::new();
    let mut code = Code::empty(3);
    let k = code.new_string("a".to_string());
    code.write(ByteCode::Int { dst: 0, value: 1 });
    code.write(ByteCode::Char { dst: 1, value: 'x' });
    code.write(ByteCode::Tuple { dst: 2, start: 0, amount: 2 });
    code.write(ByteCode::Mapping { dst: 0 });
    code.write(ByteCode::Str { dst: 1, addr: k });
    // map["a"] = (1, 'x')
    code.write(ByteCode::SetField { head: 0, field: 1, src: 2 });
    code.write(ByteCode::Return { src: Some(0) });
    let cid = pool.add(code);
    let mut heap = Heap::new();
    let v = run_unit(&pool, &mut heap, cid, vec![]).unwrap();
    assert_eq!(debug_string(&heap, &v, FUEL).unwrap(), "{ \"a\" = (1, 'x') }");
}

#[test]
fn empty_mapping_renders_with_braces() {
    let mut heap = Heap::new();
    let m = heap.add(Slot::Mapping(Vec::new()));
    assert_eq!(debug_string(&heap, &Value::Mapping(m), FUEL).unwrap(), "{  }");
}

#[test]
fn scalar_renderings() {
    let heap = Heap::new();
    assert_eq!(debug_string(&heap, &Value::Nil, FUEL).unwrap(), "nil");
    assert_eq!(debug_string(&heap, &Value::Int(-5), FUEL).unwrap(), "-5");
    assert_eq!(debug_string(&heap, &Value::Int(0), FUEL).unwrap(), "0");
    assert_eq!(
        debug_string(&heap, &Value::Int(i64::MIN), FUEL).unwrap(),
        "-9223372036854775808"
    );
    assert_eq!(debug_string(&heap, &Value::Int(i64::MAX), FUEL).unwrap(), "9223372036854775807");
    assert_eq!(debug_string(&heap, &Value::Bool(true), FUEL).unwrap(), "true");
    assert_eq!(debug_string(&heap, &Value::Bool(false), FUEL).unwrap(), "false");
    assert_eq!(debug_string(&heap, &Value::Char('x'), FUEL).unwrap(), "'x'");
    assert_eq!(display_string(&heap, &Value::Char('x'), FUEL).unwrap(), "x");
    assert_eq!(
        debug_string(&heap, &Value::Str("a\nb".to_string()), FUEL).unwrap(),
        "\"a\\nb\""
    );
    assert_eq!(
        display_string(&heap, &Value::Str("a\nb".to_string()), FUEL).unwrap(),
        "a\nb"
    );
    let bits = 1.5f64.to_bits();
    assert_eq!(
        debug_string(&heap, &Value::Float(bits), FUEL).unwrap(),
        format!("float:{}", bits)
    );
}

#[test]
fn identity_tags_distinguish_instances() {
    let mut heap = Heap::new();
    let cls = heap.add(Slot::Class(Class {
        name: "Point".to_string(),
        fields: vec![],
        methods: vec![],
        meta_methods: vec![],
    }));
    let t1 = heap.add(Slot::Tuple(vec![]));
    let t2 = heap.add(Slot::Tuple(vec![]));
    let o1 = heap.add(Slot::Object(Object { class: cls, values: t1 }));
    let o2 = heap.add(Slot::Object(Object { class: cls, values: t2 }));
    let s1 = debug_string(&heap, &Value::Object(o1), FUEL).unwrap();
    let s2 = debug_string(&heap, &Value::Object(o2), FUEL).unwrap();
    assert!(s1.starts_with("Point:"));
    assert!(s2.starts_with("Point:"));
    assert_ne!(s1, s2);
    let c = debug_string(&heap, &Value::Class(cls), FUEL).unwrap();
    assert!(c.starts_with("class<Point>:"));
}

#[test]
fn identity_vs_structural_equality() {
    // Two separately constructed empty mappings stored in two objects of the
    // same class: the objects are not equal, the extracted mappings are.
    let mut heap = Heap::new();
    let cls = heap.add(Slot::Class(Class {
        name: "Holder".to_string(),
        fields: vec!["m".to_string()],
        methods: vec![],
        meta_methods: vec![],
    }));
    let m1 = heap.add(Slot::Mapping(Vec::new()));
    let m2 = heap.add(Slot::Mapping(Vec::new()));
    let t1 = heap.add(Slot::Tuple(vec![Value::Mapping(m1)]));
    let t2 = heap.add(Slot::Tuple(vec![Value::Mapping(m2)]));
    let o1 = heap.add(Slot::Object(Object { class: cls, values: t1 }));
    let o2 = heap.add(Slot::Object(Object { class: cls, values: t2 }));
    assert_eq!(values_eq(&heap, &Value::Object(o1), &Value::Object(o2), FUEL), Some(false));
    assert_eq!(values_eq(&heap, &Value::Object(o1), &Value::Object(o1), FUEL), Some(true));
    assert_eq!(values_eq(&heap, &Value::Mapping(m1), &Value::Mapping(m2), FUEL), Some(true));
}

#[test]
fn call_return_round_trip_on_scalars() {
    // A function that copies its single argument register into its
    // return-source register gives back exactly its input.
    let mut pool = CodePool::new();
    let mut code = Code::empty(2);
    code.write(ByteCode::Copy { dst: 1, src: 0 });
    code.write(ByteCode::Return { src: Some(1) });
    let cid = pool.add(code);
    let mut heap = Heap::new();
    let inputs = vec![
        Value::Nil,
        Value::Int(7),
        Value::Int(-3),
        Value::Float(2.25f64.to_bits()),
        Value::Bool(true),
        Value::Char('q'),
        Value::Str("echo".to_string()),
    ];
    for v in inputs {
        let out = run_unit(&pool, &mut heap, cid, vec![v.clone()]).unwrap();
        assert_eq!(values_eq(&heap, &out, &v, FUEL), Some(true));
    }
}

#[test]
fn missing_arguments_default_to_nil_and_extra_ones_drop() {
    let mut pool = CodePool::new();
    let mut code = Code::empty(2);
    code.write(ByteCode::Return { src: Some(1) });
    let cid = pool.add(code);
    let mut heap = Heap::new();
    // One argument: register 1 was never written, so it returns nil.
    let out = run_unit(&pool, &mut heap, cid, vec![Value::Int(9)]).unwrap();
    assert!(matches!(out, Value::Nil));
    // Three arguments into a two-register frame: the third is dropped.
    let out = run_unit(
        &pool,
        &mut heap,
        cid,
        vec![Value::Int(1), Value::Int(2), Value::Int(3)],
    )
    .unwrap();
    assert!(matches!(out, Value::Int(2)));
}

fn jump_case(not: bool, b: bool) -> i64 {
    let mut pool = CodePool::new();
    let mut code = Code::empty(1);
    code.write(ByteCode::JumpIf { not, src: 0, addr: 3 });
    code.write(ByteCode::Int { dst: 0, value: 100 });
    code.write(ByteCode::Return { src: Some(0) });
    code.write(ByteCode::Int { dst: 0, value: 200 });
    code.write(ByteCode::Return { src: Some(0) });
    let cid = pool.add(code);
    let mut heap = Heap::new();
    match run_unit(&pool, &mut heap, cid, vec![Value::Bool(b)]).unwrap() {
        Value::Int(x) => x,
        other => panic!("expected an integer, got {:?}", other),
    }
}

#[test]
fn jump_polarity_all_four_combinations() {
    // Branch taken (200) exactly when the source differs from `not`.
    assert_eq!(jump_case(false, true), 200);
    assert_eq!(jump_case(true, true), 100);
    assert_eq!(jump_case(false, false), 100);
    assert_eq!(jump_case(true, false), 200);
}

#[test]
fn jump_if_some_tests_the_absence_marker() {
    let mut pool = CodePool::new();
    let mut code = Code::empty(1);
    code.write(ByteCode::JumpIfSome { not: false, src: 0, addr: 3 });
    code.write(ByteCode::Int { dst: 0, value: 100 });
    code.write(ByteCode::Return { src: Some(0) });
    code.write(ByteCode::Int { dst: 0, value: 200 });
    code.write(ByteCode::Return { src: Some(0) });
    let cid = pool.add(code);
    let mut heap = Heap::new();
    let taken = run_unit(&pool, &mut heap, cid, vec![Value::Int(5)]).unwrap();
    assert!(matches!(taken, Value::Int(200)));
    let fell = run_unit(&pool, &mut heap, cid, vec![Value::Nil]).unwrap();
    assert!(matches!(fell, Value::Int(100)));
}

#[test]
fn box_round_trip_shares_one_cell() {
    // Box 42, copy the register (the handle, not the contents), mutate
    // through one register's box and observe through the other.
    let mut pool = CodePool::new();
    let mut code = Code::empty(2);
    code.write(ByteCode::Int { dst: 0, value: 42 });
    code.write(ByteCode::Box { reg: 0 });
    code.write(ByteCode::Copy { dst: 1, src: 0 });
    let cid = pool.add(code);
    let mut heap = Heap::new();
    let mut vm = fresh_vm(&mut heap);
    vm.call(&pool, &FnKind::Fn(cid), vec![], 0).unwrap();
    for _ in 0..3 {
        assert!(matches!(vm.step(&mut heap, &pool), Ok(Step::KeepGoing)));
    }
    let b0 = match vm.register(0) {
        Value::Box(id) => *id,
        other => panic!("expected a box, got {:?}", other),
    };
    let b1 = match vm.register(1) {
        Value::Box(id) => *id,
        other => panic!("expected a box, got {:?}", other),
    };
    assert_eq!(b0, b1);
    assert!(matches!(heap.box_get(b0).unwrap(), Value::Int(42)));
    assert!(matches!(heap.box_get(b1).unwrap(), Value::Int(42)));
    heap.box_set(b0, Value::Int(7)).unwrap();
    assert!(matches!(heap.box_get(b1).unwrap(), Value::Int(7)));
}

#[test]
fn coroutine_yields_then_returns_then_rejects() {
    // Yield 1, return 2, across two resumes; a third resume is rejected.
    const YIELD: u64 = 7;
    let mut pool = CodePool::new();
    let mut code = Code::empty(2);
    let y = code.new_string("yield".to_string());
    code.write(ByteCode::Global { dst: 0, addr: y });
    code.write(ByteCode::Int { dst: 1, value: 1 });
    code.write(ByteCode::Call { dst: 0, start: 1, amount: 1 });
    code.write(ByteCode::Int { dst: 0, value: 2 });
    code.write(ByteCode::Return { src: Some(0) });
    let cid = pool.add(code);
    let mut heap = Heap::new();
    let vm = fresh_vm(&mut heap);
    vm.set_global(&mut heap, "yield".to_string(), Value::Fn(FnKind::NativeFn(YIELD)));
    let co = match coroutine_new(&mut heap, &pool, cid, vec![], vm.globals).unwrap() {
        Value::Coroutine(id) => id,
        other => panic!("expected a coroutine, got {:?}", other),
    };
    let mut seen: Vec<i64> = Vec::new();
    match resume(&mut heap, &pool, co, Value::Nil, BUDGET).unwrap() {
        CoEvent::Suspended { id, args } => {
            assert_eq!(id, YIELD);
            assert_eq!(args.len(), 1);
            match args[0] {
                Value::Int(x) => seen.push(x),
                ref other => panic!("expected an integer, got {:?}", other),
            }
        }
        other => panic!("expected a yield, got another event: {:?}", event_name(&other)),
    }
    match resume(&mut heap, &pool, co, Value::Nil, BUDGET).unwrap() {
        CoEvent::Returned(Value::Int(x)) => seen.push(x),
        other => panic!("expected the return, got {:?}", event_name(&other)),
    }
    assert_eq!(seen, vec![1, 2]);
    assert!(matches!(
        resume(&mut heap, &pool, co, Value::Nil, BUDGET),
        Err(VmError::StackDiscipline)
    ));
}

fn event_name(e: &CoEvent) -> &'static str {
    match e {
        CoEvent::Returned(_) => "returned",
        CoEvent::Suspended { .. } => "suspended",
        CoEvent::Paused => "paused",
    }
}

#[test]
fn mapping_equality_is_one_directional() {
    // {a: 1} equals {a: 1, b: 2}; the reverse comparison does not hold.
    let mut heap = Heap::new();
    let l = heap.add(Slot::Mapping(vec![("a".to_string(), Value::Int(1))]));
    let r = heap.add(Slot::Mapping(vec![
        ("a".to_string(), Value::Int(1)),
        ("b".to_string(), Value::Int(2)),
    ]));
    assert_eq!(values_eq(&heap, &Value::Mapping(l), &Value::Mapping(r), FUEL), Some(true));
    assert_eq!(values_eq(&heap, &Value::Mapping(r), &Value::Mapping(l), FUEL), Some(false));
}

#[test]
fn zip_equality_compares_only_the_common_prefix() {
    let mut heap = Heap::new();
    let a = heap.add(Slot::Vec(vec![Value::Int(1), Value::Int(2)]));
    let b = heap.add(Slot::Vec(vec![Value::Int(1), Value::Int(2), Value::Int(3)]));
    let c = heap.add(Slot::Vec(vec![Value::Int(9)]));
    assert_eq!(values_eq(&heap, &Value::Vec(a), &Value::Vec(b), FUEL), Some(true));
    assert_eq!(values_eq(&heap, &Value::Vec(b), &Value::Vec(a), FUEL), Some(true));
    assert_eq!(values_eq(&heap, &Value::Vec(a), &Value::Vec(c), FUEL), Some(false));
}

#[test]
fn function_values_compare_by_identity() {
    let heap = Heap::new();
    let f0 = Value::Fn(FnKind::Fn(0));
    let f0b = Value::Fn(FnKind::Fn(0));
    let f1 = Value::Fn(FnKind::Fn(1));
    let n = Value::Fn(FnKind::NativeFn(0));
    assert_eq!(values_eq(&heap, &f0, &f0b, FUEL), Some(true));
    assert_eq!(values_eq(&heap, &f0, &f1, FUEL), Some(false));
    assert_eq!(values_eq(&heap, &f0, &n, FUEL), Some(false));
    assert_eq!(
        values_eq(&heap, &Value::Str("s".to_string()), &Value::Str("s".to_string()), FUEL),
        Some(true)
    );
    assert_eq!(values_eq(&heap, &Value::Int(1), &Value::Bool(true), FUEL), Some(false));
}

#[test]
fn globals_read_write_and_replace() {
    let mut heap = Heap::new();
    let vm = Vm::init(&mut heap, vec![("x".to_string(), Value::Int(1))]);
    assert!(matches!(vm.global(&heap, &"x".to_string()), Some(Value::Int(1))));
    assert!(vm.global(&heap, &"y".to_string()).is_none());
    let prev = vm.set_global(&mut heap, "x".to_string(), Value::Int(2));
    assert!(matches!(prev, Some(Value::Int(1))));
    assert!(matches!(vm.global(&heap, &"x".to_string()), Some(Value::Int(2))));
}

#[test]
fn global_instructions_and_missing_global_reads_nil() {
    let mut pool = CodePool::new();
    let mut code = Code::empty(2);
    let sx = code.new_string("x".to_string());
    let sy = code.new_string("y".to_string());
    code.write(ByteCode::Global { dst: 0, addr: sx });
    code.write(ByteCode::SetGlobal { addr: sy, src: 0 });
    code.write(ByteCode::Global { dst: 1, addr: sy });
    code.write(ByteCode::Return { src: Some(1) });
    let cid = pool.add(code);
    let mut heap = Heap::new();
    let mut vm = Vm::init(&mut heap, vec![("x".to_string(), Value::Int(5))]);
    vm.call(&pool, &FnKind::Fn(cid), vec![], 0).unwrap();
    match vm.run(&mut heap, &pool, BUDGET).unwrap() {
        Step::Done(Value::Int(5)) => {}
        other => panic!("expected 5, got {:?}", step_name(&other)),
    }
    // A name with no binding reads as the absence marker.
    let mut code2 = Code::empty(1);
    let sz = code2.new_string("missing".to_string());
    code2.write(ByteCode::Global { dst: 0, addr: sz });
    code2.write(ByteCode::Return { src: Some(0) });
    let cid2 = pool.add(code2);
    let out = run_unit(&pool, &mut heap, cid2, vec![]).unwrap();
    assert!(matches!(out, Value::Nil));
}

fn step_name(s: &Step) -> &'static str {
    match s {
        Step::KeepGoing => "keep-going",
        Step::Done(_) => "done",
        Step::Native { .. } => "native",
    }
}

#[test]
fn mapping_field_read_and_write() {
    let mut pool = CodePool::new();
    let mut code = Code::empty(3);
    let k = code.new_string("k".to_string());
    let missing = code.new_string("other".to_string());
    code.write(ByteCode::Mapping { dst: 0 });
    code.write(ByteCode::Str { dst: 1, addr: k });
    code.write(ByteCode::Int { dst: 2, value: 11 });
    code.write(ByteCode::SetField { head: 0, field: 1, src: 2 });
    code.write(ByteCode::Field { dst: 2, head: 0, field: 1 });
    code.write(ByteCode::Str { dst: 1, addr: missing });
    code.write(ByteCode::Field { dst: 1, head: 0, field: 1 });
    code.write(ByteCode::Tuple { dst: 0, start: 1, amount: 2 });
    code.write(ByteCode::Return { src: Some(0) });
    let cid = pool.add(code);
    let mut heap = Heap::new();
    let out = run_unit(&pool, &mut heap, cid, vec![]).unwrap();
    // (missing-key read, present-key read) == (nil, 11)
    assert_eq!(debug_string(&heap, &out, FUEL).unwrap(), "(nil, 11)");
}

#[test]
fn object_field_read_and_write() {
    let mut heap = Heap::new();
    let cls = heap.add(Slot::Class(Class {
        name: "P".to_string(),
        fields: vec!["x".to_string(), "y".to_string()],
        methods: vec![],
        meta_methods: vec![],
    }));
    let vals = heap.add(Slot::Tuple(vec![Value::Int(1), Value::Int(2)]));
    let obj = heap.add(Slot::Object(Object { class: cls, values: vals }));
    let mut pool = CodePool::new();
    let mut code = Code::empty(3);
    let y = code.new_string("y".to_string());
    code.write(ByteCode::Str { dst: 1, addr: y });
    code.write(ByteCode::Int { dst: 2, value: 9 });
    code.write(ByteCode::SetField { head: 0, field: 1, src: 2 });
    code.write(ByteCode::Field { dst: 2, head: 0, field: 1 });
    code.write(ByteCode::Return { src: Some(2) });
    let cid = pool.add(code);
    let out = run_unit(&pool, &mut heap, cid, vec![Value::Object(obj)]).unwrap();
    assert!(matches!(out, Value::Int(9)));
}

#[test]
fn class_construction_collects_its_ranges() {
    let mut pool = CodePool::new();
    let mut code = Code::empty(4);
    let name = code.new_string("Pair".to_string());
    let fa = code.new_string("a".to_string());
    let fb = code.new_string("b".to_string());
    code.write(ByteCode::Str { dst: 0, addr: fa });
    code.write(ByteCode::Str { dst: 1, addr: fb });
    code.write(ByteCode::Fn { dst: 2, addr: 0 });
    code.write(ByteCode::Class {
        dst: 3,
        name_addr: name,
        fields_start: 0,
        fields_amount: 2,
        methods_start: 2,
        methods_end: 3,
        meta_methods_start: 3,
        meta_methods_end: 3,
    });
    code.write(ByteCode::Return { src: Some(3) });
    code.new_ref(0);
    let cid = pool.add(code);
    let mut heap = Heap::new();
    let out = run_unit(&pool, &mut heap, cid, vec![]).unwrap();
    let id = match out {
        Value::Class(id) => id,
        other => panic!("expected a class, got {:?}", other),
    };
    match heap.slot(id) {
        Slot::Class(c) => {
            assert_eq!(c.name, "Pair");
            assert_eq!(c.fields, vec!["a".to_string(), "b".to_string()]);
            assert_eq!(c.methods, vec![FnKind::Fn(0)]);
            assert!(c.meta_methods.is_empty());
        }
        _ => panic!("expected a class cell"),
    }
}

#[test]
fn native_calls_suspend_to_the_host() {
    let mut pool = CodePool::new();
    let mut code = Code::empty(2);
    let s = code.new_string("double".to_string());
    code.write(ByteCode::Global { dst: 0, addr: s });
    code.write(ByteCode::Int { dst: 1, value: 21 });
    code.write(ByteCode::Call { dst: 0, start: 1, amount: 1 });
    code.write(ByteCode::Return { src: Some(0) });
    let cid = pool.add(code);
    let mut heap = Heap::new();
    let mut vm = fresh_vm(&mut heap);
    vm.set_global(&mut heap, "double".to_string(), Value::Fn(FnKind::NativeFn(3)));
    vm.call(&pool, &FnKind::Fn(cid), vec![], 0).unwrap();
    let (id, args, dst) = match vm.run(&mut heap, &pool, BUDGET).unwrap() {
        Step::Native { id, args, dst } => (id, args, dst),
        other => panic!("expected a native request, got {:?}", step_name(&other)),
    };
    assert_eq!(id, 3);
    let x = match args[0] {
        Value::Int(x) => x,
        ref other => panic!("expected an integer, got {:?}", other),
    };
    vm.native_return(Value::Int(2 * x), dst).unwrap();
    match vm.run(&mut heap, &pool, BUDGET).unwrap() {
        Step::Done(Value::Int(42)) => {}
        other => panic!("expected 42, got {:?}", step_name(&other)),
    }
}

#[test]
fn error_cases_carry_their_taxonomy() {
    let mut heap = Heap::new();
    let mut pool = CodePool::new();
    // A return with an empty call stack is a stack-discipline violation.
    let mut vm = fresh_vm(&mut heap);
    assert!(matches!(vm.return_call(None), Err(VmError::StackDiscipline)));
    assert!(matches!(vm.step(&mut heap, &pool), Err(VmError::StackDiscipline)));
    // A register operand out of the declared range is malformed bytecode.
    let mut code = Code::empty(1);
    code.write(ByteCode::Copy { dst: 5, src: 0 });
    let bad_reg = pool.add(code);
    let mut vm = fresh_vm(&mut heap);
    vm.call(&pool, &FnKind::Fn(bad_reg), vec![], 0).unwrap();
    assert!(matches!(vm.step(&mut heap, &pool), Err(VmError::MalformedBytecode)));
    // A conditional jump on a non-boolean is a runtime type error.
    let mut code = Code::empty(1);
    code.write(ByteCode::JumpIf { not: false, src: 0, addr: 0 });
    let bad_jump = pool.add(code);
    let mut vm = fresh_vm(&mut heap);
    vm.call(&pool, &FnKind::Fn(bad_jump), vec![Value::Int(1)], 0).unwrap();
    assert!(matches!(vm.step(&mut heap, &pool), Err(VmError::TypeError)));
    // Calling a non-function is a runtime type error.
    let mut code = Code::empty(1);
    code.write(ByteCode::Call { dst: 0, start: 0, amount: 0 });
    let bad_call = pool.add(code);
    let mut vm = fresh_vm(&mut heap);
    vm.call(&pool, &FnKind::Fn(bad_call), vec![Value::Int(1)], 0).unwrap();
    assert!(matches!(vm.step(&mut heap, &pool), Err(VmError::TypeError)));
    // Field access on a scalar is a runtime type error.
    let mut code = Code::empty(2);
    code.write(ByteCode::Field { dst: 1, head: 0, field: 0 });
    let bad_field = pool.add(code);
    let mut vm = fresh_vm(&mut heap);
    vm.call(&pool, &FnKind::Fn(bad_field), vec![Value::Int(1)], 0).unwrap();
    assert!(matches!(vm.step(&mut heap, &pool), Err(VmError::TypeError)));
    // Running past the end of a unit is malformed bytecode.
    let empty_unit = pool.add(Code::empty(1));
    let mut vm = fresh_vm(&mut heap);
    vm.call(&pool, &FnKind::Fn(empty_unit), vec![], 0).unwrap();
    assert!(matches!(vm.step(&mut heap, &pool), Err(VmError::MalformedBytecode)));
    // A box operation on a cell that is no box is a type error.
    let t = heap.add(Slot::Tuple(vec![]));
    assert!(matches!(heap.box_get(t), Err(VmError::TypeError)));
    assert!(matches!(heap.box_set(t, Value::Nil), Err(VmError::TypeError)));
}

#[test]
fn nested_calls_return_into_the_caller_register() {
    // An inner unit doubles; the outer unit calls it and adds nothing more.
    let mut pool = CodePool::new();
    let mut inner = Code::empty(2);
    inner.write(ByteCode::Copy { dst: 1, src: 0 });
    inner.write(ByteCode::Return { src: Some(1) });
    let inner_id = pool.add(inner);
    let mut outer = Code::empty(2);
    outer.write(ByteCode::Fn { dst: 0, addr: 0 });
    outer.write(ByteCode::Int { dst: 1, value: 33 });
    outer.write(ByteCode::Call { dst: 0, start: 1, amount: 1 });
    outer.write(ByteCode::Return { src: Some(0) });
    outer.new_ref(inner_id);
    let outer_id = pool.add(outer);
    let mut heap = Heap::new();
    let out = run_unit(&pool, &mut heap, outer_id, vec![]).unwrap();
    assert!(matches!(out, Value::Int(33)));
}

#[test]
fn spent_budget_reports_keep_going() {
    // An endless loop: the budget runs dry and the machine reports that it
    // can simply be driven again.
    let mut pool = CodePool::new();
    let mut code = Code::empty(1);
    code.write(ByteCode::Jump { addr: 0 });
    let cid = pool.add(code);
    let mut heap = Heap::new();
    let mut vm = fresh_vm(&mut heap);
    vm.call(&pool, &FnKind::Fn(cid), vec![], 0).unwrap();
    assert!(matches!(vm.run(&mut heap, &pool, 100), Ok(Step::KeepGoing)));
    assert!(matches!(vm.run(&mut heap, &pool, 100), Ok(Step::KeepGoing)));
}

#[test]
fn paused_coroutine_continues_on_the_next_resume() {
    let mut pool = CodePool::new();
    let mut code = Code::empty(1);
    code.write(ByteCode::Int { dst: 0, value: 4 });
    code.write(ByteCode::Return { src: Some(0) });
    let cid = pool.add(code);
    let mut heap = Heap::new();
    let vm = fresh_vm(&mut heap);
    let co = match coroutine_new(&mut heap, &pool, cid, vec![], vm.globals).unwrap() {
        Value::Coroutine(id) => id,
        other => panic!("expected a coroutine, got {:?}", other),
    };
    assert!(matches!(
        resume(&mut heap, &pool, co, Value::Nil, 0).unwrap(),
        CoEvent::Paused
    ));
    assert!(matches!(
        resume(&mut heap, &pool, co, Value::Nil, BUDGET).unwrap(),
        CoEvent::Returned(Value::Int(4))
    ));
}

#[test]
fn float_equality_follows_the_encoded_values() {
    // A NaN equals nothing, itself included; the two zeros equal each other;
    // every other value is decided by its one bit pattern.
    let heap = Heap::new();
    let nan = Value::Float(f64::NAN.to_bits());
    let nan2 = Value::Float(f64::NAN.to_bits());
    assert_eq!(values_eq(&heap, &nan, &nan2, FUEL), Some(false));
    assert_eq!(values_eq(&heap, &nan, &nan, FUEL), Some(false));
    let pz = Value::Float(0.0f64.to_bits());
    let nz = Value::Float((-0.0f64).to_bits());
    assert_eq!(values_eq(&heap, &pz, &nz, FUEL), Some(true));
    assert_eq!(values_eq(&heap, &nz, &pz, FUEL), Some(true));
    let a = Value::Float(1.5f64.to_bits());
    let b = Value::Float(1.5f64.to_bits());
    let c = Value::Float(2.5f64.to_bits());
    assert_eq!(values_eq(&heap, &a, &b, FUEL), Some(true));
    assert_eq!(values_eq(&heap, &a, &c, FUEL), Some(false));
    assert_eq!(values_eq(&heap, &nan, &pz, FUEL), Some(false));
}
