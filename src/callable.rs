//! Callable values and the binder: bound arguments and dropped trailing arguments.

use vstd::prelude::*;

use crate::value::{duplicate_values, same_values, Value};

verus! {

/// What a callable invokes.
#[derive(Debug)]
pub enum Target {
    /// No target: invoking does nothing and yields nil.
    Null,
    /// A method, by name, of an object, by instance id. The id is kept when the
    /// object is destroyed.
    Method { object: u64, method: String },
    /// A method of a class, by names, called without an object.
    Static { class: String, method: String },
    /// A guest-defined function, by the index of its handle in the host.
    Custom { handle: usize },
}

/// A callable: a target, the arguments bound to it, and how many trailing
/// call-site arguments are dropped before dispatch.
#[derive(Debug)]
pub struct Callable {
    pub target: Target,
    pub bound: Vec<Value>,
    pub unbound: u64,
}

/// Invalid parameters to `unbind`.
#[derive(Clone, Copy, Debug, PartialEq, Eq, Structural)]
pub enum ArgumentError {
    /// The count of arguments to drop is negative.
    NegativeCount,
    /// The total count of dropped arguments would not fit in 64 bits.
    CountTooLarge,
}

/// Two targets name the same thing (method names compare by characters).
pub open spec fn same_target(a: Target, b: Target) -> bool {
    match (a, b) {
        (Target::Null, Target::Null) => true,
        (Target::Method { object: o1, method: m1 }, Target::Method { object: o2, method: m2 }) =>
            o1 == o2 && m1@ == m2@,
        (Target::Static { class: c1, method: m1 }, Target::Static { class: c2, method: m2 }) =>
            c1@ == c2@ && m1@ == m2@,
        (Target::Custom { handle: h1 }, Target::Custom { handle: h2 }) => h1 == h2,
        _ => false,
    }
}

impl Target {
    /// A copy of this target, equal to it.
    pub fn duplicate(&self) -> (r: Target)
        ensures
            r == *self,
    {
        match self {
            Target::Null => Target::Null,
            Target::Method { object, method } => Target::Method {
                object: *object,
                method: method.clone(),
            },
            Target::Static { class, method } => Target::Static {
                class: class.clone(),
                method: method.clone(),
            },
            Target::Custom { handle } => Target::Custom { handle: *handle },
        }
    }
}

impl Callable {
    /// The null callable.
    pub fn invalid() -> (r: Callable)
        ensures
            r.target is Null,
            r.bound@.len() == 0,
            r.unbound == 0,
    {
        Callable { target: Target::Null, bound: Vec::new(), unbound: 0 }
    }

    /// A callable for method `method` of the object with instance id `object`.
    pub fn from_object_method(object: u64, method: &str) -> (r: Callable)
        ensures
            (r.target matches Target::Method { object: o, method: m } && o == object && m@
                == method@),
            r.bound@.len() == 0,
            r.unbound == 0,
    {
        Callable {
            target: Target::Method { object, method: method.to_string() },
            bound: Vec::new(),
            unbound: 0,
        }
    }

    /// A callable for the method `method` of the class named `class`, called
    /// without an object.
    pub fn from_local_static(class: &str, method: &str) -> (r: Callable)
        ensures
            (r.target matches Target::Static { class: c, method: m } && c@ == class@ && m@
                == method@),
            r.bound@.len() == 0,
            r.unbound == 0,
    {
        Callable {
            target: Target::Static { class: class.to_string(), method: method.to_string() },
            bound: Vec::new(),
            unbound: 0,
        }
    }

    /// A copy of this callable: same target, same bound arguments, same
    /// unbind count. A custom target shares its handle.
    pub fn duplicate(&self) -> (r: Callable)
        ensures
            r.target == self.target,
            r.bound@ == self.bound@,
            r.unbound == self.unbound,
    {
        Callable {
            target: self.target.duplicate(),
            bound: duplicate_values(&self.bound),
            unbound: self.unbound,
        }
    }

    /// Whether this is the null callable.
    pub fn is_null(&self) -> (r: bool)
        ensures
            r == (self.target is Null),
    {
        matches!(self.target, Target::Null)
    }

    /// Whether this callable wraps a custom function.
    pub fn is_custom(&self) -> (r: bool)
        ensures
            r == (self.target is Custom),
    {
        matches!(self.target, Target::Custom { .. })
    }

    /// The instance id of the bound object, kept after the object is
    /// destroyed; none for a null or custom callable.
    pub fn object_id(&self) -> (r: Option<u64>)
        ensures
            r == (match self.target {
                Target::Method { object, .. } => Some(object),
                _ => None::<u64>,
            }),
    {
        match &self.target {
            Target::Method { object, .. } => Some(*object),
            _ => None,
        }
    }

    /// The bound method's name, kept after the object is destroyed; none for a
    /// null or custom callable.
    pub fn method_name(&self) -> (r: Option<String>)
        ensures
            match self.target {
                Target::Method { method, .. } => (r matches Some(s) && s@ == method@),
                _ => r is None,
            },
    {
        match &self.target {
            Target::Method { method, .. } => Some(method.clone()),
            _ => None,
        }
    }

    /// A new callable that appends `vals` to this one's bound arguments. The
    /// original is left as it is.
    pub fn bind(&self, vals: &[Value]) -> (r: Callable)
        ensures
            r.target == self.target,
            r.bound@ == self.bound@ + vals@,
            r.unbound == self.unbound,
    {
        let mut bound = duplicate_values(&self.bound);
        let mut i: usize = 0;
        while i < vals.len()
            invariant
                i <= vals@.len(),
                bound@ == self.bound@ + vals@.subrange(0, i as int),
            decreases vals@.len() - i,
        {
            bound.push(vals[i].duplicate());
            proof {
                assert(vals@.subrange(0, i + 1) =~= vals@.subrange(0, i as int).push(vals@[i as int]));
                assert(self.bound@ + vals@.subrange(0, i + 1) =~= (self.bound@ + vals@.subrange(
                    0,
                    i as int,
                )).push(vals@[i as int]));
            }
            i += 1;
        }
        proof {
            assert(vals@.subrange(0, vals@.len() as int) =~= vals@);
        }
        Callable { target: self.target.duplicate(), bound, unbound: self.unbound }
    }

    /// `bind` with the values given as a list.
    pub fn bindv(&self, vals: &Vec<Value>) -> (r: Callable)
        ensures
            r.target == self.target,
            r.bound@ == self.bound@ + vals@,
            r.unbound == self.unbound,
    {
        self.bind(vals.as_slice())
    }

    /// A new callable that drops `n` more trailing call-site arguments before
    /// dispatch. A negative `n` is refused.
    pub fn unbind(&self, n: i64) -> (r: Result<Callable, ArgumentError>)
        ensures
            n < 0 ==> r == Err::<Callable, ArgumentError>(ArgumentError::NegativeCount),
            n >= 0 && self.unbound + n > u64::MAX ==> r == Err::<Callable, ArgumentError>(
                ArgumentError::CountTooLarge,
            ),
            n >= 0 && self.unbound + n <= u64::MAX ==> (r matches Ok(c) && c.target == self.target
                && c.bound@ == self.bound@ && c.unbound == self.unbound + n),
    {
        if n < 0 {
            return Err(ArgumentError::NegativeCount);
        }
        let more = n as u64;
        if more > u64::MAX - self.unbound {
            return Err(ArgumentError::CountTooLarge);
        }
        Ok(
            Callable {
                target: self.target.duplicate(),
                bound: duplicate_values(&self.bound),
                unbound: self.unbound + more,
            },
        )
    }

    /// The arguments supplied through `bind`, in order.
    pub fn get_bound_arguments(&self) -> (r: Vec<Value>)
        ensures
            r@ == self.bound@,
    {
        duplicate_values(&self.bound)
    }

    /// How many arguments are bound, as the host reports it: with `net`, the
    /// bound count less the unbind count (which may be negative); otherwise
    /// the bound count alone.
    pub fn bound_args_len(&self, net: bool) -> (r: i128)
        ensures
            net ==> r == self.bound@.len() - self.unbound,
            !net ==> r == self.bound@.len(),
    {
        let b = self.bound.len() as i128;
        if net {
            b - self.unbound as i128
        } else {
            b
        }
    }

    /// The arguments a call with `args` hands to the target: the call-site
    /// arguments without the last `unbound` of them, then the bound ones.
    pub fn effective_args(&self, args: &[Value]) -> (r: Vec<Value>)
        requires
            self.unbound <= args@.len(),
        ensures
            r@ == effective(*self, args@),
    {
        let keep = args.len() - self.unbound as usize;
        let mut r: Vec<Value> = Vec::new();
        let mut i: usize = 0;
        while i < keep
            invariant
                keep <= args@.len(),
                i <= keep,
                r@ == args@.subrange(0, i as int),
            decreases keep - i,
        {
            r.push(args[i].duplicate());
            proof {
                assert(args@.subrange(0, i + 1) =~= args@.subrange(0, i as int).push(args@[i as int]));
            }
            i += 1;
        }
        let mut j: usize = 0;
        while j < self.bound.len()
            invariant
                keep <= args@.len(),
                j <= self.bound@.len(),
                r@ == args@.subrange(0, keep as int) + self.bound@.subrange(0, j as int),
            decreases self.bound@.len() - j,
        {
            r.push(self.bound[j].duplicate());
            proof {
                assert(args@.subrange(0, keep as int) + self.bound@.subrange(0, j + 1) =~= (args@.subrange(
                    0,
                    keep as int,
                ) + self.bound@.subrange(0, j as int)).push(self.bound@[j as int]));
            }
            j += 1;
        }
        proof {
            assert(self.bound@.subrange(0, self.bound@.len() as int) =~= self.bound@);
        }
        r
    }
}

/// The arguments that reach the target when `c` is called with `args`.
pub open spec fn effective(c: Callable, args: Seq<Value>) -> Seq<Value> {
    args.subrange(0, args.len() - c.unbound) + c.bound@
}

/// Two callables have the same bound arguments and unbind count.
pub open spec fn same_adjustments(a: Callable, b: Callable) -> bool {
    same_values(a.bound@, b.bound@) && a.unbound == b.unbound
}

/// `c` with `vals` appended to its bound arguments.
pub fn callable_bind(c: &Callable, vals: &[Value]) -> (r: Callable)
    ensures
        r.target == c.target,
        r.bound@ == c.bound@ + vals@,
        r.unbound == c.unbound,
{
    c.bind(vals)
}

/// `c` dropping `n` more trailing call-site arguments; refused for negative `n`.
pub fn callable_unbind(c: &Callable, n: i64) -> (r: Result<Callable, ArgumentError>)
    ensures
        n < 0 ==> r == Err::<Callable, ArgumentError>(ArgumentError::NegativeCount),
        n >= 0 && c.unbound + n > u64::MAX ==> r == Err::<Callable, ArgumentError>(
            ArgumentError::CountTooLarge,
        ),
        n >= 0 && c.unbound + n <= u64::MAX ==> (r matches Ok(d) && d.target == c.target
            && d.bound@ == c.bound@ && d.unbound == c.unbound + n),
{
    c.unbind(n)
}

} // verus!
