//! Dynamically typed values passed to and returned from callables.

use vstd::prelude::*;

verus! {

/// A dynamically typed value passed to and returned from callables.
#[derive(Clone, Debug, PartialEq)]
pub enum Value {
    Nil,
    Bool(bool),
    Int(i64),
    Str(String),
}

/// The kind of value a method parameter accepts.
#[derive(Clone, Copy, Debug, PartialEq, Eq, Structural)]
pub enum ValueKind {
    Any,
    Bool,
    Int,
    /// An integer within the range of `i32`.
    Int32,
    Str,
}

/// Whether `v` may be passed where a parameter of kind `k` is declared.
pub open spec fn has_kind(v: Value, k: ValueKind) -> bool {
    match k {
        ValueKind::Any => true,
        ValueKind::Bool => v is Bool,
        ValueKind::Int => v is Int,
        ValueKind::Int32 => v matches Value::Int(i) && i32::MIN <= i <= i32::MAX,
        ValueKind::Str => v is Str,
    }
}

/// Two values hold the same content (strings compare by their characters).
pub open spec fn same_value(a: Value, b: Value) -> bool {
    match (a, b) {
        (Value::Nil, Value::Nil) => true,
        (Value::Bool(x), Value::Bool(y)) => x == y,
        (Value::Int(x), Value::Int(y)) => x == y,
        (Value::Str(x), Value::Str(y)) => x@ == y@,
        _ => false,
    }
}

/// Two sequences of values agree element by element.
pub open spec fn same_values(a: Seq<Value>, b: Seq<Value>) -> bool {
    a.len() == b.len() && forall|i: int| 0 <= i < a.len() ==> same_value(#[trigger] a[i], b[i])
}

impl Value {
    /// Whether this is the nil value.
    pub fn is_nil(&self) -> (r: bool)
        ensures
            r == (*self is Nil),
    {
        matches!(self, Value::Nil)
    }

    /// Whether this value may be passed for a parameter of kind `k`.
    pub fn fits(&self, k: ValueKind) -> (r: bool)
        ensures
            r == has_kind(*self, k),
    {
        match k {
            ValueKind::Any => true,
            ValueKind::Bool => matches!(self, Value::Bool(_)),
            ValueKind::Int => matches!(self, Value::Int(_)),
            ValueKind::Int32 => match self {
                Value::Int(i) => i32::MIN as i64 <= *i && *i <= i32::MAX as i64,
                _ => false,
            },
            ValueKind::Str => matches!(self, Value::Str(_)),
        }
    }

    /// A copy of this value, equal to it.
    pub fn duplicate(&self) -> (r: Value)
        ensures
            r == *self,
    {
        match self {
            Value::Nil => Value::Nil,
            Value::Bool(b) => Value::Bool(*b),
            Value::Int(i) => Value::Int(*i),
            Value::Str(s) => Value::Str(s.clone()),
        }
    }

    /// Whether two values hold the same content.
    pub fn same_as(&self, other: &Value) -> (r: bool)
        ensures
            r == same_value(*self, *other),
    {
        match (self, other) {
            (Value::Nil, Value::Nil) => true,
            (Value::Bool(x), Value::Bool(y)) => *x == *y,
            (Value::Int(x), Value::Int(y)) => *x == *y,
            (Value::Str(x), Value::Str(y)) => x.eq(y),
            _ => false,
        }
    }
}

/// A copy of a list of values, equal to it element by element.
pub fn duplicate_values(vals: &Vec<Value>) -> (r: Vec<Value>)
    ensures
        r@ == vals@,
{
    let mut r: Vec<Value> = Vec::new();
    let mut i: usize = 0;
    while i < vals.len()
        invariant
            i <= vals@.len(),
            r@ == vals@.subrange(0, i as int),
        decreases vals@.len() - i,
    {
        r.push(vals[i].duplicate());
        proof {
            assert(vals@.subrange(0, i + 1) =~= vals@.subrange(0, i as int).push(vals@[i as int]));
        }
        i += 1;
    }
    proof {
        assert(vals@.subrange(0, vals@.len() as int) =~= vals@);
    }
    r
}

/// Whether two lists of values agree element by element.
pub fn values_agree(a: &Vec<Value>, b: &Vec<Value>) -> (r: bool)
    ensures
        r == same_values(a@, b@),
{
    if a.len() != b.len() {
        return false;
    }
    let mut i: usize = 0;
    while i < a.len()
        invariant
            a@.len() == b@.len(),
            i <= a@.len(),
            forall|j: int| 0 <= j < i ==> same_value(#[trigger] a@[j], b@[j]),
        decreases a@.len() - i,
    {
        if !a[i].same_as(&b[i]) {
            return false;
        }
        i += 1;
    }
    true
}

} // verus!
