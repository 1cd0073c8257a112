//! Properties that relate several operations, stated over the models.

use vstd::prelude::*;

use crate::callable::{effective, same_adjustments, Callable, Target};
use crate::custom::{eq_counted, CustomKind};
use crate::host::{has_method, Host, ObjectRecord, ThreadMode};
use crate::invoke::{CallError, Reply};
use crate::value::Value;

verus! {

/// Hashing a callable twice gives the same value: taking a hash changes only
/// the counters, which the hash does not read.
pub proof fn lemma_hash_repeatable(before: Host, after: Host, c: Callable)
    requires
        after.handles@ == before.hashed_handles(c),
    ensures
        after.spec_hash(c) == before.spec_hash(c),
{
}

/// Equal callables have equal hashes.
pub proof fn lemma_equal_callables_hash_alike(h: Host, a: Callable, b: Callable)
    requires
        h.spec_equal(a, b),
    ensures
        h.spec_hash(a) == h.spec_hash(b),
{
}

/// The bound arguments of a callable without any, after binding `vals`, are
/// exactly `vals`.
pub proof fn lemma_bound_arguments_of_bind(c: Callable, vals: Seq<Value>)
    requires
        c.bound@.len() == 0,
    ensures
        c.bound@ + vals == vals,
{
    assert(c.bound@ + vals =~= vals);
}

/// Once an object is destroyed it no longer resolves, while a callable that
/// names it keeps its id.
pub proof fn lemma_destroyed_object_unresolved(before: Host, after: Host, id: u64)
    requires
        id < before.objects@.len(),
        after.objects@ == before.objects@.update(
            id as int,
            ObjectRecord { alive: false, ..before.objects@[id as int] },
        ),
    ensures
        !after.resolves(id),
{
}

/// Calling a method of a destroyed object yields nothing and changes nothing.
pub proof fn lemma_destroyed_target_inert(h: Host, c: Callable, args: Seq<Value>, thread: u64)
    requires
        c.target is Method,
        !h.resolves(c.target->object),
    ensures
        h.outcome(c, args, thread) == (
            Err::<Reply, CallError>(CallError::DeadTarget),
            h.objects@,
            h.handles@,
        ),
{
}

/// Calling a method with more arguments than it takes yields nothing and
/// changes nothing.
pub proof fn lemma_excess_arguments_inert(
    h: Host,
    c: Callable,
    object: u64,
    method: Seq<char>,
    args: Seq<Value>,
    thread: u64,
)
    requires
        (c.target matches Target::Method { object: o, method: m } && o == object && m@ == method),
        h.resolves(object),
        has_method(h.class_of(object), method),
        args.len() >= c.unbound,
        effective(c, args).len() > h.method_of(object, method).params@.len(),
    ensures
        h.outcome(c, args, thread) == (
            Err::<Reply, CallError>(CallError::ArgumentMismatch),
            h.objects@,
            h.handles@,
        ),
{
}

/// A custom callable compared with a copy that shares its handle is equal to
/// it, and its custom equality is not consulted.
pub proof fn lemma_shared_handle_equal_uncounted(h: Host, a: Callable, b: Callable)
    requires
        a.target is Custom,
        b.target == a.target,
        b.bound@ == a.bound@,
        b.unbound == a.unbound,
    ensures
        h.spec_equal(a, b),
        h.compared_handles(a, b) == h.handles@,
{
    assert(same_adjustments(a, b));
}

/// Two distinct accumulator handles with the same state compare equal, and
/// the comparison consults each one's equality exactly once.
pub proof fn lemma_distinct_equal_handles_counted_once(h: Host, a: Callable, b: Callable)
    requires
        a.target is Custom,
        b.target is Custom,
        a.target->handle != b.target->handle,
        a.target->handle < h.handles@.len(),
        b.target->handle < h.handles@.len(),
        h.handles@[a.target->handle as int].kind == CustomKind::Accumulate,
        h.handles@[b.target->handle as int].kind == CustomKind::Accumulate,
        h.handles@[a.target->handle as int].state == h.handles@[b.target->handle as int].state,
        same_adjustments(a, b),
    ensures
        h.spec_equal(a, b),
        h.compared_handles(a, b) == h.handles@.update(
            a.target->handle as int,
            eq_counted(h.handles@[a.target->handle as int]),
        ).update(b.target->handle as int, eq_counted(h.handles@[b.target->handle as int])),
{
}

/// In checked single-thread mode, calling a thread-bound custom function from
/// another thread is refused and changes nothing.
pub proof fn lemma_cross_thread_call_refused(h: Host, c: Callable, args: Seq<Value>, thread: u64)
    requires
        h.mode == ThreadMode::SingleChecked,
        h.crosses_thread(c, thread),
    ensures
        h.outcome(c, args, thread) == (
            Err::<Reply, CallError>(CallError::ThreadAffinity),
            h.objects@,
            h.handles@,
        ),
{
}

} // verus!
