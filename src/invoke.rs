//! The invoker: dispatch with failure containment and the thread-affinity guard.

use vstd::prelude::*;

use crate::callable::{effective, Callable, Target};
use crate::custom::{custom_outcome, sum_args, CustomKind, HandleRecord};
use crate::host::{args_fit, has_method, lookup_method, method_index, Host, MethodAction, ObjectRecord, ThreadMode};
use crate::text::{decimal, to_decimal};
use crate::value::{has_kind, Value, ValueKind};

verus! {

/// Why an invocation produced no result.
#[derive(Clone, Copy, Debug, PartialEq, Eq, Structural)]
pub enum CallError {
    NullCallable,
    InvalidHandle,
    DeadTarget,
    NoSuchMethod,
    ArgumentMismatch,
    GuestFailure,
    ThreadAffinity,
}

/// What a call returns, as its contract states it: a value, or a text given
/// by its characters.
pub enum Reply {
    Value(Value),
    Text(Seq<char>),
}

/// The returned value agrees with the stated reply.
pub open spec fn reply_matches(v: Value, e: Reply) -> bool {
    match e {
        Reply::Value(w) => v == w,
        Reply::Text(t) => v matches Value::Str(s) && s@ == t,
    }
}

/// The result of `try_call` agrees with the stated one.
pub open spec fn result_matches(r: Result<Value, CallError>, e: Result<Reply, CallError>) -> bool {
    match (r, e) {
        (Ok(v), Ok(w)) => reply_matches(v, w),
        (Err(x), Err(y)) => x == y,
        _ => false,
    }
}

/// The value `call` returns for a stated result: nil for any failure.
pub open spec fn call_matches(v: Value, e: Result<Reply, CallError>) -> bool {
    match e {
        Ok(w) => reply_matches(v, w),
        Err(_) => v == Value::Nil,
    }
}

/// The decimal text of the first argument when it is an integer, else nil.
pub open spec fn described(args: Seq<Value>) -> Reply {
    if args.len() > 0 && args[0] is Int {
        Reply::Text(decimal(args[0]->Int_0 as int))
    } else {
        Reply::Value(Value::Nil)
    }
}

/// A stated value reply, or the failure.
pub open spec fn as_reply(r: Result<Value, CallError>) -> Result<Reply, CallError> {
    match r {
        Ok(v) => Ok(Reply::Value(v)),
        Err(e) => Err(e),
    }
}

/// The action needs no object, so a static call may run it.
pub open spec fn acts_without_object(a: MethodAction) -> bool {
    a == MethodAction::Echo || a == MethodAction::Describe
}

/// The first argument, or nil.
pub open spec fn first_or_nil(args: Seq<Value>) -> Value {
    if args.len() > 0 {
        args[0]
    } else {
        Value::Nil
    }
}

/// The object's field after a `Store` with these arguments.
pub open spec fn stored_value(old_value: i64, args: Seq<Value>) -> i64 {
    if args.len() > 0 && args[0] is Int {
        args[0]->Int_0
    } else {
        old_value
    }
}

impl Host {
    /// The callable wraps a thread-bound handle created on another thread,
    /// outside multi-thread mode.
    pub open spec fn crosses_thread(self, c: Callable, thread: u64) -> bool {
        match c.target {
            Target::Custom { handle } => handle < self.handles@.len()
                && !self.handles@[handle as int].thread_safe && self.handles@[handle as int].creator
                != thread && self.mode != ThreadMode::Multi,
            _ => false,
        }
    }

    /// What calling `c` with `args` on `thread` returns, and the objects and
    /// handles afterwards.
    pub open spec fn outcome(self, c: Callable, args: Seq<Value>, thread: u64) -> (
        Result<Reply, CallError>,
        Seq<ObjectRecord>,
        Seq<HandleRecord>,
    ) {
        let objs = self.objects@;
        let hs = self.handles@;
        match c.target {
            Target::Null => (Err(CallError::NullCallable), objs, hs),
            Target::Method { object, method } => {
                if !self.resolves(object) {
                    (Err(CallError::DeadTarget), objs, hs)
                } else if !has_method(self.class_of(object), method@) {
                    (Err(CallError::NoSuchMethod), objs, hs)
                } else if args.len() < c.unbound || !args_fit(
                    self.method_of(object, method@),
                    effective(c, args),
                ) {
                    (Err(CallError::ArgumentMismatch), objs, hs)
                } else {
                    let eff = effective(c, args);
                    let rec = objs[object as int];
                    match self.method_of(object, method@).action {
                        MethodAction::Store => (
                            Ok(Reply::Value(Value::Nil)),
                            objs.update(
                                object as int,
                                ObjectRecord { value: stored_value(rec.value, eff), ..rec },
                            ),
                            hs,
                        ),
                        MethodAction::Echo => (Ok(Reply::Value(first_or_nil(eff))), objs, hs),
                        MethodAction::Read => (Ok(Reply::Value(Value::Int(rec.value))), objs, hs),
                        MethodAction::Describe => (Ok(described(eff)), objs, hs),
                    }
                }
            },
            Target::Static { class, method } => {
                if !self.has_class(class@) || !has_method(self.class_named(class@), method@) {
                    (Err(CallError::NoSuchMethod), objs, hs)
                } else {
                    let m = self.class_named(class@).methods@[method_index(
                        self.class_named(class@),
                        method@,
                    )];
                    if !acts_without_object(m.action) {
                        (Err(CallError::NoSuchMethod), objs, hs)
                    } else if args.len() < c.unbound || !args_fit(m, effective(c, args)) {
                        (Err(CallError::ArgumentMismatch), objs, hs)
                    } else if m.action == MethodAction::Describe {
                        (Ok(described(effective(c, args))), objs, hs)
                    } else {
                        (Ok(Reply::Value(first_or_nil(effective(c, args)))), objs, hs)
                    }
                }
            },
            Target::Custom { handle } => {
                if handle >= hs.len() {
                    (Err(CallError::InvalidHandle), objs, hs)
                } else if self.crosses_thread(c, thread) {
                    (Err(CallError::ThreadAffinity), objs, hs)
                } else if args.len() < c.unbound {
                    (Err(CallError::ArgumentMismatch), objs, hs)
                } else {
                    let (res, h) = custom_outcome(hs[handle as int], effective(c, args));
                    (as_reply(res), objs, hs.update(handle as int, h))
                }
            },
        }
    }
}

/// Whether the arguments match the parameter kinds, in number and kind.
fn fits_params(params: &Vec<ValueKind>, args: &Vec<Value>) -> (r: bool)
    ensures
        r == (args@.len() == params@.len() && forall|i: int|
            0 <= i < args@.len() ==> has_kind(#[trigger] args@[i], params@[i])),
{
    if args.len() != params.len() {
        return false;
    }
    let mut i: usize = 0;
    while i < args.len()
        invariant
            args@.len() == params@.len(),
            i <= args@.len(),
            forall|j: int| 0 <= j < i ==> has_kind(#[trigger] args@[j], params@[j]),
        decreases args@.len() - i,
    {
        if !args[i].fits(params[i]) {
            return false;
        }
        i += 1;
    }
    true
}

impl Host {
    /// Invokes a callable with the call-site arguments `args` from thread
    /// `thread`, as `outcome` says: a failure of any kind is returned as an
    /// error and leaves objects and handles as they were, but for the count
    /// of calls a custom function received. A cross-thread call of a
    /// thread-bound handle is refused in checked single-thread mode, and is
    /// undefined (so not allowed) in unchecked single-thread mode.
    pub fn try_call(&mut self, c: &Callable, args: &[Value], thread: u64) -> (r: Result<
        Value,
        CallError,
    >)
        requires
            old(self).wf(),
            !(old(self).crosses_thread(*c, thread) && old(self).mode
                == ThreadMode::SingleUnchecked),
        ensures
            final(self).wf(),
            final(self).mode == old(self).mode,
            final(self).classes@ == old(self).classes@,
            result_matches(r, old(self).outcome(*c, args@, thread).0),
            final(self).objects@ == old(self).outcome(*c, args@, thread).1,
            final(self).handles@ == old(self).outcome(*c, args@, thread).2,
    {
        match &c.target {
            Target::Null => Err(CallError::NullCallable),
            Target::Method { object, method } => {
                let object = *object;
                let found = self.resolve_method(object, method);
                let (k, m) = match found {
                    Some(km) => km,
                    None => {
                        if object >= self.objects.len() as u64 || !self.objects[object as usize].alive {
                            return Err(CallError::DeadTarget);
                        } else {
                            return Err(CallError::NoSuchMethod);
                        }
                    },
                };
                if (args.len() as u64) < c.unbound {
                    return Err(CallError::ArgumentMismatch);
                }
                let eff = c.effective_args(args);
                if !fits_params(&self.classes[k].methods[m].params, &eff) {
                    return Err(CallError::ArgumentMismatch);
                }
                let action = self.classes[k].methods[m].action;
                let n = self.objects.len();
                assert(object < n);
                let i = object as usize;
                match action {
                    MethodAction::Store => {
                        let rec = self.objects[i];
                        let v = if eff.len() > 0 {
                            match &eff[0] {
                                Value::Int(x) => *x,
                                _ => rec.value,
                            }
                        } else {
                            rec.value
                        };
                        self.objects.set(i, ObjectRecord { value: v, ..rec });
                        proof {
                            assert forall|j: int| 0 <= j < self.objects@.len() implies (#[trigger] self.objects@[j]).class
                                < self.classes@.len() by {
                                if j != i {
                                    assert(self.objects@[j] == old(self).objects@[j]);
                                }
                            }
                        }
                        Ok(Value::Nil)
                    },
                    MethodAction::Echo => if eff.len() > 0 {
                        Ok(eff[0].duplicate())
                    } else {
                        Ok(Value::Nil)
                    },
                    MethodAction::Read => Ok(Value::Int(self.objects[i].value)),
                    MethodAction::Describe => if eff.len() > 0 {
                        match &eff[0] {
                            Value::Int(x) => Ok(Value::Str(to_decimal(*x))),
                            _ => Ok(Value::Nil),
                        }
                    } else {
                        Ok(Value::Nil)
                    },
                }
            },
            Target::Static { class, method } => {
                let k = match self.lookup_class(class) {
                    Some(k) => k,
                    None => return Err(CallError::NoSuchMethod),
                };
                let m = match lookup_method(&self.classes[k], method) {
                    Some(m) => m,
                    None => return Err(CallError::NoSuchMethod),
                };
                let action = self.classes[k].methods[m].action;
                if action != MethodAction::Echo && action != MethodAction::Describe {
                    return Err(CallError::NoSuchMethod);
                }
                if (args.len() as u64) < c.unbound {
                    return Err(CallError::ArgumentMismatch);
                }
                let eff = c.effective_args(args);
                if !fits_params(&self.classes[k].methods[m].params, &eff) {
                    return Err(CallError::ArgumentMismatch);
                }
                if eff.len() == 0 {
                    return Ok(Value::Nil);
                }
                if action == MethodAction::Describe {
                    match &eff[0] {
                        Value::Int(x) => Ok(Value::Str(to_decimal(*x))),
                        _ => Ok(Value::Nil),
                    }
                } else {
                    Ok(eff[0].duplicate())
                }
            },
            Target::Custom { handle } => {
                let h = *handle;
                if h >= self.handles.len() {
                    return Err(CallError::InvalidHandle);
                }
                let rec = self.handles[h];
                if !rec.thread_safe && rec.creator != thread && self.mode != ThreadMode::Multi {
                    return Err(CallError::ThreadAffinity);
                }
                if (args.len() as u64) < c.unbound {
                    return Err(CallError::ArgumentMismatch);
                }
                let eff = c.effective_args(args);
                let received = if rec.received < u32::MAX {
                    rec.received + 1
                } else {
                    0
                };
                let rec1 = HandleRecord { received, ..rec };
                match rec.kind {
                    CustomKind::Sum => {
                        self.handles.set(h, rec1);
                        match sum_args(0, &eff).0 {
                            Some(t) => Ok(Value::Int(t as i64)),
                            None => Err(CallError::GuestFailure),
                        }
                    },
                    CustomKind::Accumulate => {
                        let (sum, reached) = sum_args(rec.state, &eff);
                        self.handles.set(h, HandleRecord { state: reached, ..rec1 });
                        match sum {
                            Some(t) => Ok(Value::Int(t as i64)),
                            None => Err(CallError::GuestFailure),
                        }
                    },
                    _ => {
                        self.handles.set(h, rec1);
                        Err(CallError::GuestFailure)
                    },
                }
            },
        }
    }

    /// Invokes a callable and returns its result, or nil when the call
    /// failed; the effects are those of `try_call`. A cross-thread call of a
    /// thread-bound handle outside multi-thread mode is a fatal contract
    /// violation, not a failure that yields nil, and is not allowed here.
    pub fn call(&mut self, c: &Callable, args: &[Value], thread: u64) -> (r: Value)
        requires
            old(self).wf(),
            !old(self).crosses_thread(*c, thread),
        ensures
            final(self).wf(),
            final(self).mode == old(self).mode,
            final(self).classes@ == old(self).classes@,
            final(self).objects@ == old(self).outcome(*c, args@, thread).1,
            final(self).handles@ == old(self).outcome(*c, args@, thread).2,
            call_matches(r, old(self).outcome(*c, args@, thread).0),
    {
        match self.try_call(c, args, thread) {
            Ok(v) => v,
            Err(_) => Value::Nil,
        }
    }

    /// `call` with the arguments given as a list.
    pub fn callv(&mut self, c: &Callable, args: &Vec<Value>, thread: u64) -> (r: Value)
        requires
            old(self).wf(),
            !old(self).crosses_thread(*c, thread),
        ensures
            final(self).wf(),
            final(self).mode == old(self).mode,
            final(self).classes@ == old(self).classes@,
            final(self).objects@ == old(self).outcome(*c, args@, thread).1,
            final(self).handles@ == old(self).outcome(*c, args@, thread).2,
            call_matches(r, old(self).outcome(*c, args@, thread).0),
    {
        self.call(c, args.as_slice(), thread)
    }
}

} // verus!
