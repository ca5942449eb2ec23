//! The model of host values.
//!
//! The engine validates, coerces and stores values of the embedding runtime.
//! Inside the library such a value is represented by [`Value`], a closed
//! variant set covering the kinds the engine can inspect: the unit value,
//! booleans, integers, floats (kept as their raw bit pattern, since the
//! engine never computes with them), text, byte strings, tuples, sets,
//! frozen sets, keyed mappings, and nominal host objects (a class identifier,
//! the identifiers of its ancestor classes, and named attributes).
//!
//! [`ValueV`] is the mathematical view of a value; the contracts of the
//! crate speak of values through it.

use vstd::prelude::*;

verus! {

/// Mathematical view of a [`Value`]: the same tree over `Seq`.
pub enum ValueV {
    NoneValue,
    Bool(bool),
    Int(i64),
    Float(u64),
    Str(Seq<char>),
    Bytes(Seq<u8>),
    Tuple(Seq<ValueV>),
    MutableSet(Seq<ValueV>),
    FrozenSet(Seq<ValueV>),
    Dict(Seq<(ValueV, ValueV)>),
    Obj { class_id: u64, ancestors: Seq<u64>, attrs: Seq<(Seq<char>, ValueV)> },
}

/// A host value, as the engine sees it.
///
/// Floats are carried as their raw bit pattern: the engine only ever asks
/// "is this a float" and compares bit patterns, it never computes with them.
/// A nominal host object carries its class identifier, the identifiers of
/// its ancestor classes (for instance checks) and its named attributes (for
/// structural sub-validation).
#[derive(Debug)]
pub enum Value {
    NoneValue,
    Bool(bool),
    Int(i64),
    Float(u64),
    Str(String),
    Bytes(Vec<u8>),
    Tuple(Vec<Value>),
    MutableSet(Vec<Value>),
    FrozenSet(Vec<Value>),
    Dict(Vec<(Value, Value)>),
    Obj { class_id: u64, ancestors: Vec<u64>, attrs: Vec<(String, Value)> },
}

/// Views of a sequence of values, elementwise.
pub open spec fn views_of(s: Seq<Value>) -> Seq<ValueV>
    decreases s,
{
    Seq::new(
        s.len(),
        |i: int|
            if 0 <= i < s.len() {
                vview(s[i])
            } else {
                ValueV::NoneValue
            },
    )
}

/// Views of a sequence of key/value pairs, elementwise.
pub open spec fn entry_views(s: Seq<(Value, Value)>) -> Seq<(ValueV, ValueV)>
    decreases s,
{
    Seq::new(
        s.len(),
        |i: int|
            if 0 <= i < s.len() {
                (vview(s[i].0), vview(s[i].1))
            } else {
                (ValueV::NoneValue, ValueV::NoneValue)
            },
    )
}

/// Views of a sequence of named values, elementwise.
pub open spec fn attr_views(s: Seq<(String, Value)>) -> Seq<(Seq<char>, ValueV)>
    decreases s,
{
    Seq::new(
        s.len(),
        |i: int|
            if 0 <= i < s.len() {
                (s[i].0@, vview(s[i].1))
            } else {
                (Seq::empty(), ValueV::NoneValue)
            },
    )
}

/// Mathematical view of a value.
pub open spec fn vview(v: Value) -> ValueV
    decreases v,
{
    {
        match v {
            Value::NoneValue => ValueV::NoneValue,
            Value::Bool(b) => ValueV::Bool(b),
            Value::Int(i) => ValueV::Int(i),
            Value::Float(bits) => ValueV::Float(bits),
            Value::Str(s) => ValueV::Str(s@),
            Value::Bytes(b) => ValueV::Bytes(b@),
            Value::Tuple(items) => ValueV::Tuple(views_of(items@)),
            Value::MutableSet(items) => ValueV::MutableSet(views_of(items@)),
            Value::FrozenSet(items) => ValueV::FrozenSet(views_of(items@)),
            Value::Dict(entries) => ValueV::Dict(entry_views(entries@)),
            Value::Obj { class_id, ancestors, attrs } => ValueV::Obj {
                class_id: class_id,
                ancestors: ancestors@,
                attrs: attr_views(attrs@),
            },
        }
    }
}

impl DeepView for Value {
    type V = ValueV;

    #[verifier::inline]
    open spec fn deep_view(&self) -> ValueV {
        vview(*self)
    }
}

impl Clone for Value {
    /// A clone denotes the same host value: the views agree.
    fn clone(&self) -> (res: Self)
        ensures
            res.deep_view() == self.deep_view(),
        decreases self,
    {
        match self {
            Value::NoneValue => Value::NoneValue,
            Value::Bool(b) => Value::Bool(*b),
            Value::Int(i) => Value::Int(*i),
            Value::Float(bits) => Value::Float(*bits),
            Value::Str(s) => Value::Str(s.clone()),
            Value::Bytes(b) => Value::Bytes(clone_bytes(b)),
            Value::Tuple(items) => Value::Tuple(clone_values(items)),
            Value::MutableSet(items) => Value::MutableSet(clone_values(items)),
            Value::FrozenSet(items) => Value::FrozenSet(clone_values(items)),
            Value::Dict(entries) => Value::Dict(clone_entries(entries)),
            Value::Obj { class_id, ancestors, attrs } => Value::Obj {
                class_id: *class_id,
                ancestors: clone_ids(ancestors),
                attrs: clone_attrs(attrs),
            },
        }
    }
}

pub fn clone_bytes(b: &Vec<u8>) -> (res: Vec<u8>)
    ensures
        res@ == b@,
{
    let mut out: Vec<u8> = Vec::new();
    let mut i: usize = 0;
    while i < b.len()
        invariant
            i <= b.len(),
            out@ =~= b@.subrange(0, i as int),
        decreases b.len() - i,
    {
        out.push(b[i]);
        i = i + 1;
    }
    proof {
        assert(out@ =~= b@);
    }
    out
}

pub fn clone_ids(ids: &Vec<u64>) -> (res: Vec<u64>)
    ensures
        res@ == ids@,
{
    let mut out: Vec<u64> = Vec::new();
    let mut i: usize = 0;
    while i < ids.len()
        invariant
            i <= ids.len(),
            out@ =~= ids@.subrange(0, i as int),
        decreases ids.len() - i,
    {
        out.push(ids[i]);
        i = i + 1;
    }
    proof {
        assert(out@ =~= ids@);
    }
    out
}

pub fn clone_values(items: &Vec<Value>) -> (res: Vec<Value>)
    ensures
        views_of(res@) == views_of(items@),
    decreases items,
{
    let mut out: Vec<Value> = Vec::new();
    let mut i: usize = 0;
    while i < items.len()
        invariant
            i <= items.len(),
            out@.len() == i,
            forall|j: int| 0 <= j < i ==> views_of(out@)[j] == views_of(items@)[j],
        decreases items.len() - i,
    {
        out.push(items[i].clone());
        i = i + 1;
    }
    proof {
        assert(views_of(out@) =~= views_of(items@));
    }
    out
}

pub fn clone_entries(entries: &Vec<(Value, Value)>) -> (res: Vec<(Value, Value)>)
    ensures
        entry_views(res@) == entry_views(entries@),
    decreases entries,
{
    let mut out: Vec<(Value, Value)> = Vec::new();
    let mut i: usize = 0;
    while i < entries.len()
        invariant
            i <= entries.len(),
            out@.len() == i,
            forall|j: int| 0 <= j < i ==> entry_views(out@)[j] == entry_views(entries@)[j],
        decreases entries.len() - i,
    {
        let k = entries[i].0.clone();
        let v = entries[i].1.clone();
        out.push((k, v));
        i = i + 1;
    }
    proof {
        assert(entry_views(out@) =~= entry_views(entries@));
    }
    out
}

pub fn clone_attrs(attrs: &Vec<(String, Value)>) -> (res: Vec<(String, Value)>)
    ensures
        attr_views(res@) == attr_views(attrs@),
    decreases attrs,
{
    let mut out: Vec<(String, Value)> = Vec::new();
    let mut i: usize = 0;
    while i < attrs.len()
        invariant
            i <= attrs.len(),
            out@.len() == i,
            forall|j: int| 0 <= j < i ==> attr_views(out@)[j] == attr_views(attrs@)[j],
        decreases attrs.len() - i,
    {
        let k = attrs[i].0.clone();
        let v = attrs[i].1.clone();
        out.push((k, v));
        i = i + 1;
    }
    proof {
        assert(attr_views(out@) =~= attr_views(attrs@));
    }
    out
}

/// Structural equality of two values, decided on the views.
pub fn value_eq(a: &Value, b: &Value) -> (r: bool)
    ensures
        r == (a.deep_view() == b.deep_view()),
    decreases a,
{
    match (a, b) {
        (Value::NoneValue, Value::NoneValue) => true,
        (Value::Bool(x), Value::Bool(y)) => x == y,
        (Value::Int(x), Value::Int(y)) => x == y,
        (Value::Float(x), Value::Float(y)) => x == y,
        (Value::Str(x), Value::Str(y)) => *x == *y,
        (Value::Bytes(x), Value::Bytes(y)) => bytes_eq(x, y),
        (Value::Tuple(x), Value::Tuple(y)) => values_eq(x, y),
        (Value::MutableSet(x), Value::MutableSet(y)) => values_eq(x, y),
        (Value::FrozenSet(x), Value::FrozenSet(y)) => values_eq(x, y),
        (Value::Dict(x), Value::Dict(y)) => entries_eq(x, y),
        (
            Value::Obj { class_id: ca, ancestors: aa, attrs: xa },
            Value::Obj { class_id: cb, ancestors: ab, attrs: xb },
        ) => {
            if ca != cb {
                false
            } else {
                let anc = ids_eq(aa, ab);
                if !anc {
                    false
                } else {
                    attrs_eq(xa, xb)
                }
            }
        },
        _ => false,
    }
}

fn bytes_eq(a: &Vec<u8>, b: &Vec<u8>) -> (r: bool)
    ensures
        r == (a@ == b@),
{
    if a.len() != b.len() {
        proof {
            assert(a@ != b@);
        }
        return false;
    }
    let mut i: usize = 0;
    while i < a.len()
        invariant
            i <= a.len(),
            a@.len() == b@.len(),
            forall|j: int| 0 <= j < i ==> a@[j] == b@[j],
        decreases a.len() - i,
    {
        if a[i] != b[i] {
            return false;
        }
        i = i + 1;
    }
    proof {
        assert(a@ =~= b@);
    }
    true
}

fn ids_eq(a: &Vec<u64>, b: &Vec<u64>) -> (r: bool)
    ensures
        r == (a@ == b@),
{
    if a.len() != b.len() {
        proof {
            assert(a@ != b@);
        }
        return false;
    }
    let mut i: usize = 0;
    while i < a.len()
        invariant
            i <= a.len(),
            a@.len() == b@.len(),
            forall|j: int| 0 <= j < i ==> a@[j] == b@[j],
        decreases a.len() - i,
    {
        if a[i] != b[i] {
            return false;
        }
        i = i + 1;
    }
    proof {
        assert(a@ =~= b@);
    }
    true
}

fn values_eq(a: &Vec<Value>, b: &Vec<Value>) -> (r: bool)
    ensures
        r == (views_of(a@) == views_of(b@)),
    decreases a,
{
    if a.len() != b.len() {
        proof {
            assert(views_of(a@).len() != views_of(b@).len());
        }
        return false;
    }
    let mut i: usize = 0;
    while i < a.len()
        invariant
            i <= a.len(),
            a@.len() == b@.len(),
            forall|j: int| 0 <= j < i ==> views_of(a@)[j] == views_of(b@)[j],
        decreases a.len() - i,
    {
        if !value_eq(&a[i], &b[i]) {
            proof {
                assert(views_of(a@)[i as int] != views_of(b@)[i as int]);
            }
            return false;
        }
        i = i + 1;
    }
    proof {
        assert(views_of(a@) =~= views_of(b@));
    }
    true
}

fn entries_eq(a: &Vec<(Value, Value)>, b: &Vec<(Value, Value)>) -> (r: bool)
    ensures
        r == (entry_views(a@) == entry_views(b@)),
    decreases a,
{
    if a.len() != b.len() {
        proof {
            assert(entry_views(a@).len() != entry_views(b@).len());
        }
        return false;
    }
    let mut i: usize = 0;
    while i < a.len()
        invariant
            i <= a.len(),
            a@.len() == b@.len(),
            forall|j: int| 0 <= j < i ==> entry_views(a@)[j] == entry_views(b@)[j],
        decreases a.len() - i,
    {
        let kq = value_eq(&a[i].0, &b[i].0);
        if !kq {
            proof {
                assert(entry_views(a@)[i as int] != entry_views(b@)[i as int]);
            }
            return false;
        }
        let vq = value_eq(&a[i].1, &b[i].1);
        if !vq {
            proof {
                assert(entry_views(a@)[i as int] != entry_views(b@)[i as int]);
            }
            return false;
        }
        i = i + 1;
    }
    proof {
        assert(entry_views(a@) =~= entry_views(b@));
    }
    true
}

fn attrs_eq(a: &Vec<(String, Value)>, b: &Vec<(String, Value)>) -> (r: bool)
    ensures
        r == (attr_views(a@) == attr_views(b@)),
    decreases a,
{
    if a.len() != b.len() {
        proof {
            assert(attr_views(a@).len() != attr_views(b@).len());
        }
        return false;
    }
    let mut i: usize = 0;
    while i < a.len()
        invariant
            i <= a.len(),
            a@.len() == b@.len(),
            forall|j: int| 0 <= j < i ==> attr_views(a@)[j] == attr_views(b@)[j],
        decreases a.len() - i,
    {
        let kq = a[i].0 == b[i].0;
        if !kq {
            proof {
                assert(attr_views(a@)[i as int] != attr_views(b@)[i as int]);
            }
            return false;
        }
        let vq = value_eq(&a[i].1, &b[i].1);
        if !vq {
            proof {
                assert(attr_views(a@)[i as int] != attr_views(b@)[i as int]);
            }
            return false;
        }
        i = i + 1;
    }
    proof {
        assert(attr_views(a@) =~= attr_views(b@));
    }
    true
}



} // verus!
