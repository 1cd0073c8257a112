//! Guest-defined custom functions: their handles, behaviours and usage counters.

use vstd::prelude::*;

use crate::callable::{Callable, Target};
use crate::host::Host;
use crate::invoke::CallError;
use crate::text::{decimal, push_decimal};
use crate::value::Value;
use vstd::string::StringExecFns;

verus! {

/// The behaviour of a guest-defined function.
#[derive(Clone, Copy, Debug, PartialEq, Eq, Structural)]
pub enum CustomKind {
    /// Returns the sum of its integer arguments; stateless, no custom equality.
    Sum,
    /// Adds its integer arguments to its state and returns the new state;
    /// equal to another accumulator with the same state, hashed by its state.
    Accumulate,
    /// Always reports failure.
    Fail,
    /// Always faults (a guest panic), which the invoker contains.
    Fault,
}

/// Counts of how often a custom function's equality and hash were consulted.
#[derive(Clone, Copy, Debug, PartialEq, Eq, Structural)]
pub struct Tracker {
    pub eq_counter: usize,
    pub hash_counter: usize,
}

/// The state of a custom function handle.
#[derive(Clone, Copy, Debug, PartialEq, Eq, Structural)]
pub struct HandleRecord {
    pub kind: CustomKind,
    pub state: i32,
    pub creator: u64,
    pub thread_safe: bool,
    pub tracker: Tracker,
    pub received: u32,
}

/// A custom accumulator function with its usage counters.
#[derive(Clone, Copy, Debug, PartialEq, Eq, Structural)]
pub struct Adder {
    pub sum: i32,
    pub tracker: Tracker,
}

/// A custom function that faults on every call; holds how many calls it has
/// received.
#[derive(Clone, Copy, Debug, PartialEq, Eq, Structural)]
pub struct PanicCallable(pub u32);

pub open spec fn fits_i32(x: int) -> bool {
    i32::MIN <= x <= i32::MAX
}

/// The sum of `acc` and the arguments, taken from the left; none when an
/// argument is not an integer or an argument or a partial sum leaves `i32`.
pub open spec fn sum_from(acc: int, args: Seq<Value>) -> Option<int>
    decreases args.len(),
{
    if args.len() == 0 {
        Some(acc)
    } else {
        match sum_from(acc, args.drop_last()) {
            Some(p) => match args.last() {
                Value::Int(x) => if fits_i32(x as int) && fits_i32(p + x) {
                    Some(p + x)
                } else {
                    None
                },
                _ => None,
            },
            None => None,
        }
    }
}

/// The running sum when the arguments are added one by one to `acc` until
/// one of them fails: the whole sum when none fails, else the sum of those
/// before the failing one.
pub open spec fn running_sum(acc: int, args: Seq<Value>) -> int
    decreases args.len(),
{
    if args.len() == 0 {
        acc
    } else {
        match sum_from(acc, args.drop_last()) {
            Some(p) => match sum_from(acc, args) {
                Some(s) => s,
                None => p,
            },
            None => running_sum(acc, args.drop_last()),
        }
    }
}

proof fn lemma_sum_none_extends(acc: int, s: Seq<Value>, k: int)
    requires
        0 <= k <= s.len(),
        sum_from(acc, s.subrange(0, k)) is None,
    ensures
        sum_from(acc, s) is None,
    decreases s.len() - k,
{
    if k < s.len() {
        assert(s.subrange(0, k + 1).drop_last() =~= s.subrange(0, k));
        lemma_sum_none_extends(acc, s, k + 1);
    } else {
        assert(s.subrange(0, k) =~= s);
    }
}

/// Once the argument at `k` fails, the running sum stays at the sum of the
/// arguments before it, however many follow.
proof fn lemma_running_after_failure(acc: int, s: Seq<Value>, k: int, t: int, j: int)
    requires
        0 <= k < j <= s.len(),
        sum_from(acc, s.subrange(0, k)) == Some(t),
        sum_from(acc, s.subrange(0, k + 1)) is None,
    ensures
        running_sum(acc, s.subrange(0, j)) == t,
    decreases j - k,
{
    let sj = s.subrange(0, j);
    if j == k + 1 {
        assert(sj.drop_last() =~= s.subrange(0, k));
    } else {
        assert(sj.drop_last() =~= s.subrange(0, j - 1));
        lemma_running_after_failure(acc, s, k, t, j - 1);
        let sk = s.subrange(0, j - 1);
        assert(sk.subrange(0, k + 1) =~= s.subrange(0, k + 1));
        lemma_sum_none_extends(acc, sk, k + 1);
    }
}

/// Adds the arguments to `acc` from the left: the sum as `sum_from` says,
/// and the running sum reached before any failure.
pub(crate) fn sum_args(acc: i32, args: &Vec<Value>) -> (r: (Option<i32>, i32))
    ensures
        match sum_from(acc as int, args@) {
            Some(s) => (r.0 matches Some(t) && t as int == s),
            None => r.0 is None,
        },
        r.1 as int == running_sum(acc as int, args@),
{
    let mut total: i32 = acc;
    let mut i: usize = 0;
    proof {
        assert(args@.subrange(0, 0) =~= Seq::<Value>::empty());
    }
    while i < args.len()
        invariant
            i <= args@.len(),
            sum_from(acc as int, args@.subrange(0, i as int)) == Some(total as int),
        decreases args@.len() - i,
    {
        proof {
            assert(args@.subrange(0, i + 1).drop_last() =~= args@.subrange(0, i as int));
        }
        let fails = match &args[i] {
            Value::Int(x) => *x < i32::MIN as i64 || *x > i32::MAX as i64 || total as i64 + *x
                < i32::MIN as i64 || total as i64 + *x > i32::MAX as i64,
            _ => true,
        };
        if fails {
            proof {
                assert(sum_from(acc as int, args@.subrange(0, i + 1)) is None);
                lemma_sum_none_extends(acc as int, args@, i + 1);
                lemma_running_after_failure(acc as int, args@, i as int, total as int, args@.len() as int);
                assert(args@.subrange(0, args@.len() as int) =~= args@);
            }
            return (None, total);
        }
        match &args[i] {
            Value::Int(x) => {
                total = (total as i64 + *x) as i32;
            },
            _ => {},
        }
        i += 1;
    }
    proof {
        assert(args@.subrange(0, args@.len() as int) =~= args@);
        if args@.len() > 0 {
            assert(sum_from(acc as int, args@.drop_last()) is Some);
        }
    }
    (Some(total), total)
}

pub open spec fn bump_usize(x: usize) -> usize {
    if x < usize::MAX {
        (x + 1) as usize
    } else {
        x
    }
}

/// One more, wrapping to zero after `u32::MAX`.
pub open spec fn wrap_inc_u32(x: u32) -> u32 {
    if x < u32::MAX {
        (x + 1) as u32
    } else {
        0
    }
}

/// The handle after its equality was consulted once.
pub open spec fn eq_counted(h: HandleRecord) -> HandleRecord {
    HandleRecord {
        tracker: Tracker { eq_counter: bump_usize(h.tracker.eq_counter), ..h.tracker },
        ..h
    }
}

/// The handle after its hash was consulted once.
pub open spec fn hash_counted(h: HandleRecord) -> HandleRecord {
    HandleRecord {
        tracker: Tracker { hash_counter: bump_usize(h.tracker.hash_counter), ..h.tracker },
        ..h
    }
}

/// What invoking a custom handle with these arguments returns, and its new record.
pub open spec fn custom_outcome(h: HandleRecord, args: Seq<Value>) -> (
    Result<Value, CallError>,
    HandleRecord,
) {
    let h1 = HandleRecord { received: wrap_inc_u32(h.received), ..h };
    match h.kind {
        CustomKind::Sum => match sum_from(0, args) {
            Some(s) => (Ok(Value::Int(s as i64)), h1),
            None => (Err(CallError::GuestFailure), h1),
        },
        CustomKind::Accumulate => {
            let h2 = HandleRecord { state: running_sum(h.state as int, args) as i32, ..h1 };
            match sum_from(h.state as int, args) {
                Some(s) => (Ok(Value::Int(s as i64)), h2),
                None => (Err(CallError::GuestFailure), h2),
            }
        },
        _ => (Err(CallError::GuestFailure), h1),
    }
}

impl Host {
    /// Adds a handle and returns a callable for it.
    fn add_handle(&mut self, rec: HandleRecord, name: String) -> (r: Callable)
        requires
            old(self).wf(),
        ensures
            final(self).wf(),
            final(self).mode == old(self).mode,
            final(self).classes@ == old(self).classes@,
            final(self).objects@ == old(self).objects@,
            final(self).handles@ == old(self).handles@.push(rec),
            final(self).names@ == old(self).names@.push(name),
            r.target == (Target::Custom { handle: old(self).handles@.len() as usize }),
            r.bound@.len() == 0,
            r.unbound == 0,
    {
        let handle = self.handles.len();
        self.handles.push(rec);
        self.names.push(name);
        Callable { target: Target::Custom { handle }, bound: Vec::new(), unbound: 0 }
    }

    /// A callable for a guest function of kind `kind`, bound to the thread
    /// `thread` that creates it.
    pub fn from_local_fn(&mut self, name: &str, kind: CustomKind, thread: u64) -> (r: Callable)
        requires
            old(self).wf(),
        ensures
            final(self).wf(),
            final(self).mode == old(self).mode,
            final(self).classes@ == old(self).classes@,
            final(self).objects@ == old(self).objects@,
            final(self).handles@ == old(self).handles@.push(
                HandleRecord {
                    kind,
                    state: 0,
                    creator: thread,
                    thread_safe: false,
                    tracker: Tracker { eq_counter: 0, hash_counter: 0 },
                    received: 0,
                },
            ),
            final(self).names@.drop_last() == old(self).names@,
            final(self).names@.last()@ == name@,
            r.target == (Target::Custom { handle: old(self).handles@.len() as usize }),
            r.bound@.len() == 0,
            r.unbound == 0,
    {
        self.add_handle(
            HandleRecord {
                kind,
                state: 0,
                creator: thread,
                thread_safe: false,
                tracker: Tracker::new(),
                received: 0,
            },
            name.to_string(),
        )
    }

    /// A callable for a guest function of kind `kind` that any thread may invoke.
    pub fn from_sync_fn(&mut self, name: &str, kind: CustomKind, thread: u64) -> (r: Callable)
        requires
            old(self).wf(),
        ensures
            final(self).wf(),
            final(self).mode == old(self).mode,
            final(self).classes@ == old(self).classes@,
            final(self).objects@ == old(self).objects@,
            final(self).handles@ == old(self).handles@.push(
                HandleRecord {
                    kind,
                    state: 0,
                    creator: thread,
                    thread_safe: true,
                    tracker: Tracker { eq_counter: 0, hash_counter: 0 },
                    received: 0,
                },
            ),
            final(self).names@.drop_last() == old(self).names@,
            final(self).names@.last()@ == name@,
            r.target == (Target::Custom { handle: old(self).handles@.len() as usize }),
            r.bound@.len() == 0,
            r.unbound == 0,
    {
        self.add_handle(
            HandleRecord {
                kind,
                state: 0,
                creator: thread,
                thread_safe: true,
                tracker: Tracker::new(),
                received: 0,
            },
            name.to_string(),
        )
    }

    /// A callable for an accumulator starting at `adder.sum`, with its
    /// counters, bound to the thread that creates it.
    pub fn from_custom(&mut self, adder: Adder, thread: u64) -> (r: Callable)
        requires
            old(self).wf(),
        ensures
            final(self).wf(),
            final(self).mode == old(self).mode,
            final(self).classes@ == old(self).classes@,
            final(self).objects@ == old(self).objects@,
            final(self).handles@ == old(self).handles@.push(
                HandleRecord {
                    kind: CustomKind::Accumulate,
                    state: adder.sum,
                    creator: thread,
                    thread_safe: false,
                    tracker: adder.tracker,
                    received: 0,
                },
            ),
            final(self).names@.drop_last() == old(self).names@,
            final(self).names@.last()@ == "Adder"@,
            r.target == (Target::Custom { handle: old(self).handles@.len() as usize }),
            r.bound@.len() == 0,
            r.unbound == 0,
    {
        proof {
            reveal_strlit("Adder");
        }
        self.add_handle(
            HandleRecord {
                kind: CustomKind::Accumulate,
                state: adder.sum,
                creator: thread,
                thread_safe: false,
                tracker: adder.tracker,
                received: 0,
            },
            "Adder".to_string(),
        )
    }

    /// A callable for a function that faults on every call, counting the
    /// calls it receives from `p.0` on.
    pub fn from_panicking(&mut self, p: PanicCallable, thread: u64) -> (r: Callable)
        requires
            old(self).wf(),
        ensures
            final(self).wf(),
            final(self).mode == old(self).mode,
            final(self).classes@ == old(self).classes@,
            final(self).objects@ == old(self).objects@,
            final(self).handles@ == old(self).handles@.push(
                HandleRecord {
                    kind: CustomKind::Fault,
                    state: 0,
                    creator: thread,
                    thread_safe: false,
                    tracker: Tracker { eq_counter: 0, hash_counter: 0 },
                    received: p.0,
                },
            ),
            final(self).names@.drop_last() == old(self).names@,
            final(self).names@.last()@ == "test"@,
            r.target == (Target::Custom { handle: old(self).handles@.len() as usize }),
            r.bound@.len() == 0,
            r.unbound == 0,
    {
        proof {
            reveal_strlit("test");
        }
        self.add_handle(
            HandleRecord {
                kind: CustomKind::Fault,
                state: 0,
                creator: thread,
                thread_safe: false,
                tracker: Tracker::new(),
                received: p.0,
            },
            "test".to_string(),
        )
    }

    /// The record of the handle with this index.
    pub fn handle(&self, h: usize) -> (r: Option<HandleRecord>)
        ensures
            h < self.handles@.len() ==> r == Some(self.handles@[h as int]),
            h >= self.handles@.len() ==> r is None,
    {
        if h < self.handles.len() {
            Some(self.handles[h])
        } else {
            None
        }
    }
}

impl Host {
    /// The display text of a handle: an accumulator shows its state, as
    /// `Adder(sum=N)`; any other handle shows its name.
    pub open spec fn display_text(self, h: int) -> Seq<char> {
        if self.handles@[h].kind == CustomKind::Accumulate {
            "Adder(sum="@ + decimal(self.handles@[h].state as int) + ")"@
        } else {
            self.names@[h]@
        }
    }

    /// The display text of a custom callable's handle; none for another callable.
    pub fn display(&self, c: &Callable) -> (r: Option<String>)
        requires
            self.wf(),
        ensures
            match c.target {
                Target::Custom { handle } => if handle < self.handles@.len() {
                    r matches Some(s) && s@ == self.display_text(handle as int)
                } else {
                    r is None
                },
                _ => r is None,
            },
    {
        match &c.target {
            Target::Custom { handle } => {
                let h = *handle;
                if h >= self.handles.len() {
                    return None;
                }
                let rec = self.handles[h];
                if rec.kind == CustomKind::Accumulate {
                    proof {
                        reveal_strlit("Adder(sum=");
                        reveal_strlit(")");
                    }
                    let mut s = "Adder(sum=".to_string();
                    push_decimal(&mut s, rec.state as i64);
                    s.append(")");
                    Some(s)
                } else {
                    Some(self.names[h].clone())
                }
            },
            _ => None,
        }
    }
}

impl Tracker {
    /// Counters at zero.
    pub fn new() -> (r: Tracker)
        ensures
            r.eq_counter == 0,
            r.hash_counter == 0,
    {
        Tracker { eq_counter: 0, hash_counter: 0 }
    }
}

/// How often the custom equality was consulted.
pub fn eq_count(tracker: &Tracker) -> (r: usize)
    ensures
        r == tracker.eq_counter,
{
    tracker.eq_counter
}

/// How often the custom hash was consulted.
pub fn hash_count(tracker: &Tracker) -> (r: usize)
    ensures
        r == tracker.hash_counter,
{
    tracker.hash_counter
}

impl Adder {
    /// An accumulator starting at `sum`, with fresh counters.
    pub fn new(sum: i32) -> (r: Adder)
        ensures
            r.sum == sum,
            r.tracker == (Tracker { eq_counter: 0, hash_counter: 0 }),
    {
        Adder { sum, tracker: Tracker::new() }
    }

    /// An accumulator starting at `sum`, with the given counters.
    pub fn new_tracked(sum: i32, tracker: Tracker) -> (r: Adder)
        ensures
            r.sum == sum,
            r.tracker == tracker,
    {
        Adder { sum, tracker }
    }
}

} // verus!
