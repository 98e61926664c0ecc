//! Value equality.
//!
//! Scalars compare structurally — floats by the value their bit pattern
//! encodes, so a NaN never equals anything (itself included) and the two
//! zeros equal each other. Functions, coroutines, classes, objects,
//! iterators and boxes compare by identity — the same underlying cell — never
//! by content. Tuples and sequences compare element-wise by zipping: when the
//! lengths differ only the common prefix is compared, with no length check.
//! Mappings compare one-directionally: every entry of the left operand must
//! appear, with an equal value, in the right operand; extra keys on the right
//! do not break equality. These asymmetries are preserved on purpose.
//!
//! Shared cells can form cycles, so comparison is depth-bounded: the caller
//! supplies `fuel`, and `None` means the bound (or a dangling handle) was hit
//! before the answer was decided.
use vstd::prelude::*;
use crate::heap::{assoc_get, assoc_read, entries_of, items_of, Heap, Slot};
use crate::value::Value;

verus! {

/// The copy-on-assignment variants.
pub open spec fn is_scalar(v: Value) -> bool {
    match v {
        Value::Nil => true,
        Value::Int(_) => true,
        Value::Float(_) => true,
        Value::Bool(_) => true,
        Value::Char(_) => true,
        Value::Str(_) => true,
        _ => false,
    }
}

/// The bit pattern encodes a NaN: exponent all ones, mantissa nonzero.
pub open spec fn float_is_nan(bits: u64) -> bool {
    bits & 0x7FF0000000000000 == 0x7FF0000000000000 && bits & 0x000FFFFFFFFFFFFF != 0
}

/// The bit pattern encodes one of the two zeros.
pub open spec fn float_is_zero(bits: u64) -> bool {
    bits & 0x7FFFFFFFFFFFFFFF == 0
}

/// Equality of the floats the two bit patterns encode: a NaN equals nothing,
/// the two zeros equal each other, and every other value has exactly one
/// pattern, so the patterns themselves decide.
pub open spec fn float_bits_eq(a: u64, b: u64) -> bool {
    if float_is_nan(a) || float_is_nan(b) {
        false
    } else if float_is_zero(a) && float_is_zero(b) {
        true
    } else {
        a == b
    }
}

/// What comparing `a` and `b` in heap `h` gives with `fuel` depth left.
pub open spec fn eq_fuel(h: Heap, a: Value, b: Value, fuel: nat) -> Option<bool>
    decreases fuel,
{
    match (a, b) {
        (Value::Nil, Value::Nil) => Some(true),
        (Value::Int(x), Value::Int(y)) => Some(x == y),
        (Value::Float(x), Value::Float(y)) => Some(float_bits_eq(x, y)),
        (Value::Bool(x), Value::Bool(y)) => Some(x == y),
        (Value::Char(x), Value::Char(y)) => Some(x == y),
        (Value::Str(x), Value::Str(y)) => Some(x@ == y@),
        (Value::Fn(x), Value::Fn(y)) => Some(x == y),
        (Value::Coroutine(x), Value::Coroutine(y)) => Some(x == y),
        (Value::Class(x), Value::Class(y)) => Some(x == y),
        (Value::Object(x), Value::Object(y)) => Some(x == y),
        (Value::Iter(x), Value::Iter(y)) => Some(x == y),
        (Value::Box(x), Value::Box(y)) => Some(x == y),
        (Value::Tuple(x), Value::Tuple(y)) => {
            if x >= h.slots@.len() || y >= h.slots@.len() || !(h.slots@[x as int] is Tuple) || !(
            h.slots@[y as int] is Tuple) || fuel == 0 {
                None
            } else {
                eq_zip(h, items_of(h.slots@[x as int]), items_of(h.slots@[y as int]), (fuel - 1) as nat)
            }
        },
        (Value::Vec(x), Value::Vec(y)) => {
            if x >= h.slots@.len() || y >= h.slots@.len() || !(h.slots@[x as int] is Vec) || !(
            h.slots@[y as int] is Vec) || fuel == 0 {
                None
            } else {
                eq_zip(h, items_of(h.slots@[x as int]), items_of(h.slots@[y as int]), (fuel - 1) as nat)
            }
        },
        (Value::Mapping(x), Value::Mapping(y)) => {
            if x >= h.slots@.len() || y >= h.slots@.len() || !(h.slots@[x as int] is Mapping) || !(
            h.slots@[y as int] is Mapping) || fuel == 0 {
                None
            } else {
                eq_map(h, entries_of(h.slots@[x as int]), entries_of(h.slots@[y as int]), (fuel - 1) as nat)
            }
        },
        _ => Some(false),
    }
}

/// Element-wise comparison of the common prefix: a missing length check is
/// part of the observed behaviour being preserved.
pub open spec fn eq_zip(h: Heap, s1: Seq<Value>, s2: Seq<Value>, fuel: nat) -> Option<bool>
    decreases fuel,
{
    if s1.len() == 0 || s2.len() == 0 {
        Some(true)
    } else if fuel == 0 {
        None
    } else {
        match eq_fuel(h, s1[0], s2[0], (fuel - 1) as nat) {
            None => None,
            Some(false) => Some(false),
            Some(true) => eq_zip(h, s1.drop_first(), s2.drop_first(), (fuel - 1) as nat),
        }
    }
}

/// One-directional mapping comparison: every left entry must have an equal
/// value under the same key on the right (a missing key reads as the absence
/// marker, consistent with field reads).
pub open spec fn eq_map(
    h: Heap,
    left: Seq<(String, Value)>,
    right: Seq<(String, Value)>,
    fuel: nat,
) -> Option<bool>
    decreases fuel,
{
    if left.len() == 0 {
        Some(true)
    } else if fuel == 0 {
        None
    } else {
        let rv = match assoc_get(right, left[0].0@) {
            Some(v) => v,
            None => Value::Nil,
        };
        match eq_fuel(h, left[0].1, rv, (fuel - 1) as nat) {
            None => None,
            Some(false) => Some(false),
            Some(true) => eq_map(h, left.drop_first(), right, (fuel - 1) as nat),
        }
    }
}

/// Compares two floats by their bit patterns: exactly [`float_bits_eq`].
fn float_eq(a: u64, b: u64) -> (r: bool)
    ensures
        r == float_bits_eq(a, b),
{
    let a_nan = a & 0x7FF0000000000000 == 0x7FF0000000000000 && a & 0x000FFFFFFFFFFFFF != 0;
    let b_nan = b & 0x7FF0000000000000 == 0x7FF0000000000000 && b & 0x000FFFFFFFFFFFFF != 0;
    if a_nan || b_nan {
        false
    } else if a & 0x7FFFFFFFFFFFFFFF == 0 && b & 0x7FFFFFFFFFFFFFFF == 0 {
        true
    } else {
        a == b
    }
}

/// Compares two values under heap `h` to depth `fuel`: exactly [`eq_fuel`].
pub fn values_eq(heap: &Heap, a: &Value, b: &Value, fuel: u64) -> (r: Option<bool>)
    ensures
        r == eq_fuel(*heap, *a, *b, fuel as nat),
    decreases fuel,
{
    match (a, b) {
        (Value::Nil, Value::Nil) => Some(true),
        (Value::Int(x), Value::Int(y)) => Some(*x == *y),
        (Value::Float(x), Value::Float(y)) => Some(float_eq(*x, *y)),
        (Value::Bool(x), Value::Bool(y)) => Some(*x == *y),
        (Value::Char(x), Value::Char(y)) => Some(*x == *y),
        (Value::Str(x), Value::Str(y)) => Some(*x == *y),
        (Value::Fn(x), Value::Fn(y)) => Some(*x == *y),
        (Value::Coroutine(x), Value::Coroutine(y)) => Some(*x == *y),
        (Value::Class(x), Value::Class(y)) => Some(*x == *y),
        (Value::Object(x), Value::Object(y)) => Some(*x == *y),
        (Value::Iter(x), Value::Iter(y)) => Some(*x == *y),
        (Value::Box(x), Value::Box(y)) => Some(*x == *y),
        (Value::Tuple(x), Value::Tuple(y)) => {
            if *x >= heap.len() || *y >= heap.len() || fuel == 0 {
                return None;
            }
            match (heap.slot(*x), heap.slot(*y)) {
                (Slot::Tuple(i1), Slot::Tuple(i2)) => {
                    proof {
                        assert(i1@.skip(0) =~= i1@);
                        assert(i2@.skip(0) =~= i2@);
                    }
                    eq_zip_exec(heap, i1, i2, 0, fuel - 1)
                },
                _ => None,
            }
        },
        (Value::Vec(x), Value::Vec(y)) => {
            if *x >= heap.len() || *y >= heap.len() || fuel == 0 {
                return None;
            }
            match (heap.slot(*x), heap.slot(*y)) {
                (Slot::Vec(i1), Slot::Vec(i2)) => {
                    proof {
                        assert(i1@.skip(0) =~= i1@);
                        assert(i2@.skip(0) =~= i2@);
                    }
                    eq_zip_exec(heap, i1, i2, 0, fuel - 1)
                },
                _ => None,
            }
        },
        (Value::Mapping(x), Value::Mapping(y)) => {
            if *x >= heap.len() || *y >= heap.len() || fuel == 0 {
                return None;
            }
            match (heap.slot(*x), heap.slot(*y)) {
                (Slot::Mapping(e1), Slot::Mapping(e2)) => {
                    proof {
                        assert(e1@.skip(0) =~= e1@);
                    }
                    eq_map_exec(heap, e1, e2, 0, fuel - 1)
                },
                _ => None,
            }
        },
        _ => Some(false),
    }
}

/// The executable mirror of [`eq_zip`], walking from element `i` on.
fn eq_zip_exec(heap: &Heap, s1: &Vec<Value>, s2: &Vec<Value>, i: usize, fuel: u64) -> (r: Option<
    bool,
>)
    requires
        i <= s1@.len(),
        i <= s2@.len(),
    ensures
        r == eq_zip(*heap, s1@.skip(i as int), s2@.skip(i as int), fuel as nat),
    decreases fuel,
{
    if i == s1.len() || i == s2.len() {
        return Some(true);
    }
    if fuel == 0 {
        return None;
    }
    match values_eq(heap, &s1[i], &s2[i], fuel - 1) {
        None => None,
        Some(false) => Some(false),
        Some(true) => {
            let r = eq_zip_exec(heap, s1, s2, i + 1, fuel - 1);
            proof {
                assert(s1@.skip(i as int).drop_first() =~= s1@.skip(i as int + 1));
                assert(s2@.skip(i as int).drop_first() =~= s2@.skip(i as int + 1));
            }
            r
        },
    }
}

/// The executable mirror of [`eq_map`], walking the left entries from `i` on.
fn eq_map_exec(
    heap: &Heap,
    left: &Vec<(String, Value)>,
    right: &Vec<(String, Value)>,
    i: usize,
    fuel: u64,
) -> (r: Option<bool>)
    requires
        i <= left@.len(),
    ensures
        r == eq_map(*heap, left@.skip(i as int), right@, fuel as nat),
    decreases fuel,
{
    if i == left.len() {
        return Some(true);
    }
    if fuel == 0 {
        return None;
    }
    let rv = match assoc_read(right, &left[i].0) {
        Some(v) => v,
        None => Value::Nil,
    };
    match values_eq(heap, &left[i].1, &rv, fuel - 1) {
        None => None,
        Some(false) => Some(false),
        Some(true) => {
            let r = eq_map_exec(heap, left, right, i + 1, fuel - 1);
            proof {
                assert(left@.skip(i as int).drop_first() =~= left@.skip(i as int + 1));
            }
            r
        },
    }
}

/// Identity beats structure: two object values over distinct cells are never
/// equal, whatever the cells hold — even two instances of one class whose
/// field values match exactly.
pub proof fn lemma_object_identity(h: Heap, i: usize, j: usize, fuel: nat)
    requires
        i != j,
    ensures
        eq_fuel(h, Value::Object(i), Value::Object(j), fuel) == Some(false),
{
}

/// Structure beats identity for mappings: two distinct empty mapping cells
/// compare equal when extracted and compared directly.
pub proof fn lemma_empty_mappings_equal(h: Heap, i: usize, j: usize, fuel: nat)
    requires
        i < h.slots@.len(),
        j < h.slots@.len(),
        h.slots@[i as int] is Mapping,
        h.slots@[j as int] is Mapping,
        entries_of(h.slots@[i as int]).len() == 0,
        fuel > 0,
    ensures
        eq_fuel(h, Value::Mapping(i), Value::Mapping(j), fuel) == Some(true),
{
}

/// A scalar equals itself — except a NaN float, which IEEE equality makes
/// unequal even to itself.
pub open spec fn scalar_self_eq(v: Value) -> bool {
    match v {
        Value::Float(b) => !float_is_nan(b),
        _ => is_scalar(v),
    }
}

pub proof fn lemma_scalar_eq_reflexive(h: Heap, v: Value, fuel: nat)
    requires
        is_scalar(v),
        scalar_self_eq(v),
    ensures
        eq_fuel(h, v, v, fuel) == Some(true),
{
}

/// The one-directional mapping rule: when every left entry's key is bound on
/// the right to the same scalar value (NaN floats excluded, since a NaN never
/// equals anything), the mappings compare equal — however many extra keys the
/// right one carries. The reverse comparison has no such guarantee: the
/// asymmetry is intended.
pub proof fn lemma_mapping_eq_one_directional(
    h: Heap,
    left: Seq<(String, Value)>,
    right: Seq<(String, Value)>,
    fuel: nat,
)
    requires
        fuel >= left.len(),
        forall|t: int|
            0 <= t < left.len() ==> is_scalar(#[trigger] left[t].1) && scalar_self_eq(left[t].1)
                && assoc_get(right, left[t].0@) == Some(left[t].1),
    ensures
        eq_map(h, left, right, fuel) == Some(true),
    decreases left.len(),
{
    if left.len() > 0 {
        lemma_scalar_eq_reflexive(h, left[0].1, (fuel - 1) as nat);
        assert forall|t: int| 0 <= t < left.drop_first().len() implies is_scalar(
            #[trigger] left.drop_first()[t].1,
        ) && scalar_self_eq(left.drop_first()[t].1) && assoc_get(
            right,
            left.drop_first()[t].0@,
        ) == Some(left.drop_first()[t].1) by {
            assert(left.drop_first()[t] == left[t + 1]);
        }
        lemma_mapping_eq_one_directional(h, left.drop_first(), right, (fuel - 1) as nat);
    }
}

} // verus!
