//! The two renderings of a value.
//!
//! The debug rendering shows structure recursively: quoted strings and
//! characters with a small escape set, parenthesized tuples, bracketed
//! sequences, brace-delimited `"key" = value` pairs for mappings, and a
//! stable identity tag — the cell index — for reference-typed values, so two
//! distinct instances stay distinguishable even with identical content. The
//! display rendering shows characters and strings raw and otherwise equals
//! the debug rendering. A float shows as `float:` plus its decimal IEEE-754
//! bit pattern: the engine never interprets the bits, and a host that wants a
//! numeric form converts them itself.
//!
//! Shared cells can form cycles, so rendering is depth-bounded like equality:
//! `None` means the `fuel` bound (or a dangling handle) was hit first.
use vstd::prelude::*;
use crate::heap::{entries_of, items_of, Heap, Slot};
use crate::value::{FnKind, Value};

verus! {

/// The character of one decimal digit.
pub open spec fn digit_char(d: nat) -> char {
    if d == 0 {
        '0'
    } else if d == 1 {
        '1'
    } else if d == 2 {
        '2'
    } else if d == 3 {
        '3'
    } else if d == 4 {
        '4'
    } else if d == 5 {
        '5'
    } else if d == 6 {
        '6'
    } else if d == 7 {
        '7'
    } else if d == 8 {
        '8'
    } else {
        '9'
    }
}

/// The decimal digits of `n`, most significant first.
pub open spec fn dec_digits(n: nat) -> Seq<char>
    decreases n,
{
    if n < 10 {
        seq![digit_char(n)]
    } else {
        dec_digits(n / 10).push(digit_char(n % 10))
    }
}

/// The rendering of a signed integer: a minus sign and the magnitude.
pub open spec fn int_chars(v: int) -> Seq<char> {
    if v >= 0 {
        dec_digits(v as nat)
    } else {
        seq!['-'] + dec_digits((-v) as nat)
    }
}

/// One character under the escape set: backslashes, both quote kinds and the
/// common control characters become two-character sequences, everything else
/// stays itself.
pub open spec fn esc_char(c: char) -> Seq<char> {
    if c == '\\' {
        seq!['\\', '\\']
    } else if c == '"' {
        seq!['\\', '"']
    } else if c == '\'' {
        seq!['\\', '\'']
    } else if c == '\n' {
        seq!['\\', 'n']
    } else if c == '\t' {
        seq!['\\', 't']
    } else if c == '\r' {
        seq!['\\', 'r']
    } else {
        seq![c]
    }
}

/// A whole character sequence under the escape set.
pub open spec fn esc_str(s: Seq<char>) -> Seq<char>
    decreases s.len(),
{
    if s.len() == 0 {
        Seq::empty()
    } else {
        esc_char(s[0]) + esc_str(s.drop_first())
    }
}

/// The debug rendering of `v` in heap `h` with `fuel` depth left.
pub open spec fn render_fuel(h: Heap, v: Value, fuel: nat) -> Option<Seq<char>>
    decreases fuel,
{
    match v {
        Value::Nil => Some(seq!['n', 'i', 'l']),
        Value::Int(x) => Some(int_chars(x as int)),
        Value::Float(bits) => Some(seq!['f', 'l', 'o', 'a', 't', ':'] + dec_digits(bits as nat)),
        Value::Bool(b) => Some(
            if b {
                seq!['t', 'r', 'u', 'e']
            } else {
                seq!['f', 'a', 'l', 's', 'e']
            },
        ),
        Value::Char(c) => Some(seq!['\''] + esc_char(c) + seq!['\'']),
        Value::Str(s) => Some(seq!['"'] + esc_str(s@) + seq!['"']),
        Value::Fn(FnKind::Fn(cid)) => Some(seq!['f', 'n', ':'] + dec_digits(cid as nat)),
        Value::Fn(FnKind::NativeFn(id)) => Some(
            seq!['f', 'n', ':', 'n', 'a', 't', 'i', 'v', 'e', ':'] + dec_digits(id as nat),
        ),
        Value::Coroutine(id) => Some(
            seq!['c', 'o', 'r', 'o', 'u', 't', 'i', 'n', 'e', ':'] + dec_digits(id as nat),
        ),
        Value::Iter(id) => Some(seq!['i', 't', 'e', 'r', ':'] + dec_digits(id as nat)),
        Value::Box(id) => Some(seq!['b', 'o', 'x', ':'] + dec_digits(id as nat)),
        Value::Class(id) => {
            if id < h.slots@.len() && h.slots@[id as int] is Class {
                Some(
                    seq!['c', 'l', 'a', 's', 's', '<'] + h.slots@[id as int]->Class_0.name@ + seq![
                        '>',
                        ':',
                    ] + dec_digits(id as nat),
                )
            } else {
                None
            }
        },
        Value::Object(id) => {
            if id < h.slots@.len() && h.slots@[id as int] is Object && ({
                let ob = h.slots@[id as int]->Object_0;
                ob.class < h.slots@.len() && h.slots@[ob.class as int] is Class
            }) {
                let ob = h.slots@[id as int]->Object_0;
                Some(
                    h.slots@[ob.class as int]->Class_0.name@ + seq![':'] + dec_digits(id as nat),
                )
            } else {
                None
            }
        },
        Value::Tuple(id) => {
            if id < h.slots@.len() && h.slots@[id as int] is Tuple && fuel > 0 {
                match render_items(h, items_of(h.slots@[id as int]), (fuel - 1) as nat) {
                    Some(cs) => Some(seq!['('] + cs + seq![')']),
                    None => None,
                }
            } else {
                None
            }
        },
        Value::Vec(id) => {
            if id < h.slots@.len() && h.slots@[id as int] is Vec && fuel > 0 {
                match render_items(h, items_of(h.slots@[id as int]), (fuel - 1) as nat) {
                    Some(cs) => Some(seq!['['] + cs + seq![']']),
                    None => None,
                }
            } else {
                None
            }
        },
        Value::Mapping(id) => {
            if id < h.slots@.len() && h.slots@[id as int] is Mapping && fuel > 0 {
                match render_entries(h, entries_of(h.slots@[id as int]), (fuel - 1) as nat) {
                    Some(cs) => Some(seq!['{', ' '] + cs + seq![' ', '}']),
                    None => None,
                }
            } else {
                None
            }
        },
    }
}

/// The debug renderings of a cell's items, joined by a comma and a space.
pub open spec fn render_items(h: Heap, items: Seq<Value>, fuel: nat) -> Option<Seq<char>>
    decreases fuel,
{
    if items.len() == 0 {
        Some(Seq::empty())
    } else if fuel == 0 {
        None
    } else {
        match render_fuel(h, items[0], (fuel - 1) as nat) {
            None => None,
            Some(c0) => {
                if items.len() == 1 {
                    Some(c0)
                } else {
                    match render_items(h, items.drop_first(), (fuel - 1) as nat) {
                        None => None,
                        Some(rest) => Some(c0 + seq![',', ' '] + rest),
                    }
                }
            },
        }
    }
}

/// The `"key" = value` renderings of a mapping's entries, joined by a comma
/// and a space.
pub open spec fn render_entries(h: Heap, e: Seq<(String, Value)>, fuel: nat) -> Option<Seq<char>>
    decreases fuel,
{
    if e.len() == 0 {
        Some(Seq::empty())
    } else if fuel == 0 {
        None
    } else {
        match render_fuel(h, e[0].1, (fuel - 1) as nat) {
            None => None,
            Some(cv) => {
                let c0 = seq!['"'] + esc_str(e[0].0@) + seq!['"', ' ', '=', ' '] + cv;
                if e.len() == 1 {
                    Some(c0)
                } else {
                    match render_entries(h, e.drop_first(), (fuel - 1) as nat) {
                        None => None,
                        Some(rest) => Some(c0 + seq![',', ' '] + rest),
                    }
                }
            },
        }
    }
}

/// The display rendering: characters and strings raw, all else as debug.
pub open spec fn display_fuel(h: Heap, v: Value, fuel: nat) -> Option<Seq<char>> {
    match v {
        Value::Char(c) => Some(seq![c]),
        Value::Str(s) => Some(s@),
        _ => render_fuel(h, v, fuel),
    }
}

/// The view of an optional character buffer.
pub open spec fn opt_chars(r: Option<Vec<char>>) -> Option<Seq<char>> {
    match r {
        Some(cs) => Some(cs@),
        None => None,
    }
}

fn digit_char_exec(d: u64) -> (c: char)
    requires
        d < 10,
    ensures
        c == digit_char(d as nat),
{
    if d == 0 {
        '0'
    } else if d == 1 {
        '1'
    } else if d == 2 {
        '2'
    } else if d == 3 {
        '3'
    } else if d == 4 {
        '4'
    } else if d == 5 {
        '5'
    } else if d == 6 {
        '6'
    } else if d == 7 {
        '7'
    } else if d == 8 {
        '8'
    } else {
        '9'
    }
}

/// Appends the decimal digits of `n`.
fn push_dec(out: &mut Vec<char>, n: u64)
    ensures
        final(out)@ == old(out)@ + dec_digits(n as nat),
    decreases n,
{
    if n < 10 {
        out.push(digit_char_exec(n));
        proof {
            assert(out@ =~= old(out)@ + dec_digits(n as nat));
        }
    } else {
        push_dec(out, n / 10);
        out.push(digit_char_exec(n % 10));
        proof {
            assert(out@ =~= old(out)@ + dec_digits(n as nat));
        }
    }
}

/// Appends the rendering of a signed integer.
fn push_int(out: &mut Vec<char>, v: i64)
    ensures
        final(out)@ == old(out)@ + int_chars(v as int),
{
    if v >= 0 {
        push_dec(out, v as u64);
    } else {
        out.push('-');
        let m: u64 = (-(v as i128)) as u64;
        push_dec(out, m);
        proof {
            assert(out@ =~= old(out)@ + int_chars(v as int));
        }
    }
}

/// Appends one character under the escape set.
fn push_esc_char(out: &mut Vec<char>, c: char)
    ensures
        final(out)@ == old(out)@ + esc_char(c),
{
    if c == '\\' {
        out.push('\\');
        out.push('\\');
    } else if c == '"' {
        out.push('\\');
        out.push('"');
    } else if c == '\'' {
        out.push('\\');
        out.push('\'');
    } else if c == '\n' {
        out.push('\\');
        out.push('n');
    } else if c == '\t' {
        out.push('\\');
        out.push('t');
    } else if c == '\r' {
        out.push('\\');
        out.push('r');
    } else {
        out.push(c);
    }
    proof {
        assert(out@ =~= old(out)@ + esc_char(c));
    }
}

/// Appends a whole string under the escape set.
fn push_esc_str(out: &mut Vec<char>, s: &String)
    ensures
        final(out)@ == old(out)@ + esc_str(s@),
{
    let chars: Vec<char> = str_chars(s.as_str());
    let n = chars.len();
    let mut i: usize = 0;
    while i < n
        invariant
            n == chars@.len(),
            chars@ == s@,
            i <= n,
            out@ == old(out)@ + esc_str(s@.take(i as int)),
        decreases n - i,
    {
        push_esc_char(out, chars[i]);
        proof {
            lemma_esc_str_snoc(s@, i as int);
            assert(s@.take(i as int).push(s@[i as int]) =~= s@.take(i as int + 1));
        }
        i = i + 1;
    }
    proof {
        assert(s@.take(n as int) =~= s@);
    }
}

/// Escaping distributes over appending one character.
proof fn lemma_esc_str_snoc(s: Seq<char>, i: int)
    requires
        0 <= i < s.len(),
    ensures
        esc_str(s.take(i + 1)) == esc_str(s.take(i)) + esc_char(s[i]),
    decreases i,
{
    if i == 0 {
        assert(s.take(1).drop_first() =~= Seq::<char>::empty());
        assert(s.take(1)[0] == s[0]);
        assert(s.take(0) =~= Seq::<char>::empty());
        assert(esc_str(s.take(1)) == esc_char(s[0]) + esc_str(Seq::<char>::empty()));
        assert(esc_char(s[0]) + Seq::<char>::empty() =~= esc_char(s[0]));
        assert(esc_str(s.take(0)) + esc_char(s[0]) =~= esc_char(s[0]));
    } else {
        lemma_esc_str_snoc(s.drop_first(), i - 1);
        assert(s.take(i + 1).drop_first() =~= s.drop_first().take(i));
        assert(s.take(i).drop_first() =~= s.drop_first().take(i - 1));
        assert(s.take(i + 1)[0] == s[0]);
        assert(s.take(i)[0] == s[0]);
        assert(esc_str(s.take(i + 1)) == esc_char(s[0]) + esc_str(s.drop_first().take(i)));
        assert(esc_str(s.take(i)) == esc_char(s[0]) + esc_str(s.drop_first().take(i - 1)));
        assert(s.drop_first()[i - 1] == s[i]);
        assert((esc_char(s[0]) + esc_str(s.drop_first().take(i - 1))) + esc_char(s[i]) =~= esc_char(
            s[0],
        ) + (esc_str(s.drop_first().take(i - 1)) + esc_char(s[i])));
    }
}


/// Relies on `str::chars`: hands back the string's characters, in order.
#[verifier::external_body]
fn str_chars(s: &str) -> (r: Vec<char>)
    ensures
        r@ == s@,
{
    s.chars().collect()
}

/// Relies on `String::from_iter` over characters: builds the string holding
/// exactly these characters, in order.
#[verifier::external_body]
fn chars_to_string(cs: Vec<char>) -> (r: String)
    ensures
        r@ == cs@,
{
    cs.into_iter().collect()
}

/// The debug rendering of `v`, to depth `fuel`: exactly [`render_fuel`].
pub fn render_value(heap: &Heap, v: &Value, fuel: u64) -> (r: Option<Vec<char>>)
    ensures
        opt_chars(r) == render_fuel(*heap, *v, fuel as nat),
    decreases fuel,
{
    let mut out: Vec<char> = Vec::new();
    match v {
        Value::Nil => {
            out.push('n');
            out.push('i');
            out.push('l');
            proof {
                assert(out@ =~= seq!['n', 'i', 'l']);
            }
            Some(out)
        },
        Value::Int(x) => {
            push_int(&mut out, *x);
            proof {
                assert(out@ =~= int_chars(*x as int));
            }
            Some(out)
        },
        Value::Float(bits) => {
            out.push('f');
            out.push('l');
            out.push('o');
            out.push('a');
            out.push('t');
            out.push(':');
            proof {
                assert(out@ =~= seq!['f', 'l', 'o', 'a', 't', ':']);
            }
            push_dec(&mut out, *bits);
            Some(out)
        },
        Value::Bool(b) => {
            if *b {
                out.push('t');
                out.push('r');
                out.push('u');
                out.push('e');
                proof {
                    assert(out@ =~= seq!['t', 'r', 'u', 'e']);
                }
            } else {
                out.push('f');
                out.push('a');
                out.push('l');
                out.push('s');
                out.push('e');
                proof {
                    assert(out@ =~= seq!['f', 'a', 'l', 's', 'e']);
                }
            }
            Some(out)
        },
        Value::Char(c) => {
            out.push('\'');
            push_esc_char(&mut out, *c);
            out.push('\'');
            proof {
                assert(out@ =~= seq!['\''] + esc_char(*c) + seq!['\'']);
            }
            Some(out)
        },
        Value::Str(sv) => {
            out.push('"');
            push_esc_str(&mut out, sv);
            out.push('"');
            proof {
                assert(out@ =~= seq!['"'] + esc_str(sv@) + seq!['"']);
            }
            Some(out)
        },
        Value::Fn(FnKind::Fn(cid)) => {
            out.push('f');
            out.push('n');
            out.push(':');
            proof {
                assert(out@ =~= seq!['f', 'n', ':']);
            }
            push_dec(&mut out, *cid as u64);
            Some(out)
        },
        Value::Fn(FnKind::NativeFn(id)) => {
            out.push('f');
            out.push('n');
            out.push(':');
            out.push('n');
            out.push('a');
            out.push('t');
            out.push('i');
            out.push('v');
            out.push('e');
            out.push(':');
            proof {
                assert(out@ =~= seq!['f', 'n', ':', 'n', 'a', 't', 'i', 'v', 'e', ':']);
            }
            push_dec(&mut out, *id);
            Some(out)
        },
        Value::Coroutine(id) => {
            out.push('c');
            out.push('o');
            out.push('r');
            out.push('o');
            out.push('u');
            out.push('t');
            out.push('i');
            out.push('n');
            out.push('e');
            out.push(':');
            proof {
                assert(out@ =~= seq!['c', 'o', 'r', 'o', 'u', 't', 'i', 'n', 'e', ':']);
            }
            push_dec(&mut out, *id as u64);
            Some(out)
        },
        Value::Iter(id) => {
            out.push('i');
            out.push('t');
            out.push('e');
            out.push('r');
            out.push(':');
            proof {
                assert(out@ =~= seq!['i', 't', 'e', 'r', ':']);
            }
            push_dec(&mut out, *id as u64);
            Some(out)
        },
        Value::Box(id) => {
            out.push('b');
            out.push('o');
            out.push('x');
            out.push(':');
            proof {
                assert(out@ =~= seq!['b', 'o', 'x', ':']);
            }
            push_dec(&mut out, *id as u64);
            Some(out)
        },
        Value::Class(id) => {
            let id = *id;
            if id >= heap.len() {
                return None;
            }
            match heap.slot(id) {
                Slot::Class(c) => {
                    out.push('c');
                    out.push('l');
                    out.push('a');
                    out.push('s');
                    out.push('s');
                    out.push('<');
                    proof {
                        assert(out@ =~= seq!['c', 'l', 'a', 's', 's', '<']);
                    }
                    let mut name = str_chars(c.name.as_str());
                    out.append(&mut name);
                    out.push('>');
                    out.push(':');
                    push_dec(&mut out, id as u64);
                    proof {
                        assert(out@ =~= seq!['c', 'l', 'a', 's', 's', '<'] + heap.slots@[
                            id as int
                        ]->Class_0.name@ + seq!['>', ':'] + dec_digits(id as nat));
                    }
                    Some(out)
                },
                _ => None,
            }
        },
        Value::Object(id) => {
            let id = *id;
            if id >= heap.len() {
                return None;
            }
            let ob = match heap.slot(id) {
                Slot::Object(o) => *o,
                _ => {
                    return None;
                },
            };
            if ob.class >= heap.len() {
                return None;
            }
            match heap.slot(ob.class) {
                Slot::Class(c) => {
                    let mut name = str_chars(c.name.as_str());
                    out.append(&mut name);
                    out.push(':');
                    push_dec(&mut out, id as u64);
                    proof {
                        assert(out@ =~= heap.slots@[ob.class as int]->Class_0.name@ + seq![':']
                            + dec_digits(id as nat));
                    }
                    Some(out)
                },
                _ => None,
            }
        },
        Value::Tuple(id) => {
            let id = *id;
            if id >= heap.len() || fuel == 0 {
                return None;
            }
            match heap.slot(id) {
                Slot::Tuple(items) => {
                    match render_items_exec(heap, items, 0, fuel - 1) {
                        Some(mut cs) => {
                            out.push('(');
                            out.append(&mut cs);
                            out.push(')');
                            proof {
                                assert(items@.skip(0) =~= items@);
                            }
                            Some(out)
                        },
                        None => {
                            proof {
                                assert(items@.skip(0) =~= items@);
                            }
                            None
                        },
                    }
                },
                _ => None,
            }
        },
        Value::Vec(id) => {
            let id = *id;
            if id >= heap.len() || fuel == 0 {
                return None;
            }
            match heap.slot(id) {
                Slot::Vec(items) => {
                    match render_items_exec(heap, items, 0, fuel - 1) {
                        Some(mut cs) => {
                            out.push('[');
                            out.append(&mut cs);
                            out.push(']');
                            proof {
                                assert(items@.skip(0) =~= items@);
                            }
                            Some(out)
                        },
                        None => {
                            proof {
                                assert(items@.skip(0) =~= items@);
                            }
                            None
                        },
                    }
                },
                _ => None,
            }
        },
        Value::Mapping(id) => {
            let id = *id;
            if id >= heap.len() || fuel == 0 {
                return None;
            }
            match heap.slot(id) {
                Slot::Mapping(e) => {
                    match render_entries_exec(heap, e, 0, fuel - 1) {
                        Some(mut cs) => {
                            out.push('{');
                            out.push(' ');
                            out.append(&mut cs);
                            out.push(' ');
                            out.push('}');
                            proof {
                                assert(e@.skip(0) =~= e@);
                            }
                            Some(out)
                        },
                        None => {
                            proof {
                                assert(e@.skip(0) =~= e@);
                            }
                            None
                        },
                    }
                },
                _ => None,
            }
        },
    }
}

/// The executable mirror of [`render_items`], from element `i` on.
fn render_items_exec(heap: &Heap, items: &Vec<Value>, i: usize, fuel: u64) -> (r: Option<
    Vec<char>,
>)
    requires
        i <= items@.len(),
    ensures
        opt_chars(r) == render_items(*heap, items@.skip(i as int), fuel as nat),
    decreases fuel,
{
    if i == items.len() {
        return Some(Vec::new());
    }
    if fuel == 0 {
        return None;
    }
    match render_value(heap, &items[i], fuel - 1) {
        None => None,
        Some(mut c0) => {
            if i + 1 == items.len() {
                proof {
                    assert(items@.skip(i as int).len() == 1);
                }
                Some(c0)
            } else {
                match render_items_exec(heap, items, i + 1, fuel - 1) {
                    None => {
                        proof {
                            assert(items@.skip(i as int).drop_first() =~= items@.skip(
                                i as int + 1,
                            ));
                        }
                        None
                    },
                    Some(mut rest) => {
                        c0.push(',');
                        c0.push(' ');
                        c0.append(&mut rest);
                        proof {
                            assert(items@.skip(i as int).drop_first() =~= items@.skip(
                                i as int + 1,
                            ));
                        }
                        Some(c0)
                    },
                }
            }
        },
    }
}

/// The executable mirror of [`render_entries`], from entry `i` on.
fn render_entries_exec(heap: &Heap, e: &Vec<(String, Value)>, i: usize, fuel: u64) -> (r: Option<
    Vec<char>,
>)
    requires
        i <= e@.len(),
    ensures
        opt_chars(r) == render_entries(*heap, e@.skip(i as int), fuel as nat),
    decreases fuel,
{
    if i == e.len() {
        return Some(Vec::new());
    }
    if fuel == 0 {
        return None;
    }
    match render_value(heap, &e[i].1, fuel - 1) {
        None => None,
        Some(mut cv) => {
            let mut c0: Vec<char> = Vec::new();
            c0.push('"');
            push_esc_str(&mut c0, &e[i].0);
            c0.push('"');
            c0.push(' ');
            c0.push('=');
            c0.push(' ');
            c0.append(&mut cv);
            proof {
                assert(c0@ =~= seq!['"'] + esc_str(e@[i as int].0@) + seq!['"', ' ', '=', ' ']
                    + render_fuel(*heap, e@[i as int].1, (fuel - 1) as nat)->0);
            }
            if i + 1 == e.len() {
                proof {
                    assert(e@.skip(i as int).len() == 1);
                }
                Some(c0)
            } else {
                match render_entries_exec(heap, e, i + 1, fuel - 1) {
                    None => {
                        proof {
                            assert(e@.skip(i as int).drop_first() =~= e@.skip(i as int + 1));
                        }
                        None
                    },
                    Some(mut rest) => {
                        c0.push(',');
                        c0.push(' ');
                        c0.append(&mut rest);
                        proof {
                            assert(e@.skip(i as int).drop_first() =~= e@.skip(i as int + 1));
                        }
                        Some(c0)
                    },
                }
            }
        },
    }
}

/// The debug rendering as a string: quoted strings and characters, structure
/// shown recursively, identity tags on reference-typed values.
pub fn debug_string(heap: &Heap, v: &Value, fuel: u64) -> (r: Option<String>)
    ensures
        match r {
            Some(s) => render_fuel(*heap, *v, fuel as nat) == Some(s@),
            None => render_fuel(*heap, *v, fuel as nat) == None::<Seq<char>>,
        },
{
    match render_value(heap, v, fuel) {
        Some(cs) => Some(chars_to_string(cs)),
        None => None,
    }
}

/// The display rendering as a string: characters and strings raw, everything
/// else as [`debug_string`].
pub fn display_string(heap: &Heap, v: &Value, fuel: u64) -> (r: Option<String>)
    ensures
        match r {
            Some(s) => display_fuel(*heap, *v, fuel as nat) == Some(s@),
            None => display_fuel(*heap, *v, fuel as nat) == None::<Seq<char>>,
        },
{
    match v {
        Value::Char(c) => {
            let mut cs: Vec<char> = Vec::new();
            cs.push(*c);
            proof {
                assert(cs@ =~= seq![*c]);
            }
            Some(chars_to_string(cs))
        },
        Value::Str(sv) => Some(sv.clone()),
        _ => debug_string(heap, v, fuel),
    }
}

} // verus!
