//! Equality and hashing of callables.

use vstd::prelude::*;

use crate::callable::{same_adjustments, same_target, Callable, Target};
use crate::custom::{eq_counted, hash_counted, CustomKind, HandleRecord, Tracker};
use crate::hashing::{fold_hash, spec_fold_hash};
use crate::host::Host;
use crate::value::values_agree;

verus! {

impl Host {
    /// The hash of a callable: fixed for null, from the instance id and the
    /// method name for a method, from the class and method names for a
    /// static method, from the state for an accumulator, and from
    /// the handle's identity for another custom function.
    pub open spec fn spec_hash(self, c: Callable) -> u32 {
        match c.target {
            Target::Null => 0,
            Target::Method { object, method } => spec_fold_hash(
                (object % 0x1_0000_0000) as u32,
                vstd::utf8::encode_utf8(method@),
            ),
            Target::Static { class, method } => spec_fold_hash(
                spec_fold_hash(0, vstd::utf8::encode_utf8(class@)),
                vstd::utf8::encode_utf8(method@),
            ),
            Target::Custom { handle } => if handle < self.handles@.len()
                && self.handles@[handle as int].kind == CustomKind::Accumulate {
                self.handles@[handle as int].state as u32
            } else {
                handle as u32
            },
        }
    }

    /// The handles after `c` was hashed: an accumulator counts the hash.
    pub open spec fn hashed_handles(self, c: Callable) -> Seq<HandleRecord> {
        match c.target {
            Target::Custom { handle } => if handle < self.handles@.len()
                && self.handles@[handle as int].kind == CustomKind::Accumulate {
                self.handles@.update(handle as int, hash_counted(self.handles@[handle as int]))
            } else {
                self.handles@
            },
            _ => self.handles@,
        }
    }

    /// Custom equality is consulted: two distinct accumulator handles.
    pub open spec fn custom_eq_applies(self, a: Callable, b: Callable) -> bool {
        match (a.target, b.target) {
            (Target::Custom { handle: ha }, Target::Custom { handle: hb }) => ha != hb && ha
                < self.handles@.len() && hb < self.handles@.len() && self.handles@[ha as int].kind
                == CustomKind::Accumulate && self.handles@[hb as int].kind == CustomKind::Accumulate,
            _ => false,
        }
    }

    /// Whether two callables are equal: same target (a custom handle is equal
    /// to itself, and two accumulators with the same state are equal), same
    /// bound arguments, same unbind count.
    pub open spec fn spec_equal(self, a: Callable, b: Callable) -> bool {
        let targets = match (a.target, b.target) {
            (Target::Custom { handle: ha }, Target::Custom { handle: hb }) => if ha == hb {
                true
            } else if self.custom_eq_applies(a, b) {
                self.handles@[ha as int].state == self.handles@[hb as int].state
            } else {
                false
            },
            _ => same_target(a.target, b.target),
        };
        targets && same_adjustments(a, b)
    }

    /// The handles after `a` and `b` were compared: custom equality counts
    /// once on each side.
    pub open spec fn compared_handles(self, a: Callable, b: Callable) -> Seq<HandleRecord> {
        if self.custom_eq_applies(a, b) {
            let ha = a.target->handle as int;
            let hb = b.target->handle as int;
            self.handles@.update(ha, eq_counted(self.handles@[ha])).update(
                hb,
                eq_counted(self.handles@[hb]),
            )
        } else {
            self.handles@
        }
    }
}

impl Host {
    /// The hash of a callable, as `spec_hash` says; an accumulator counts
    /// that its hash was taken.
    pub fn hash(&mut self, c: &Callable) -> (r: u32)
        requires
            old(self).wf(),
        ensures
            final(self).wf(),
            final(self).mode == old(self).mode,
            final(self).classes@ == old(self).classes@,
            final(self).objects@ == old(self).objects@,
            final(self).handles@ == old(self).hashed_handles(*c),
            r == old(self).spec_hash(*c),
    {
        match &c.target {
            Target::Null => 0,
            Target::Method { object, method } => fold_hash((*object % 0x1_0000_0000) as u32, method),
            Target::Static { class, method } => fold_hash(fold_hash(0, class), method),
            Target::Custom { handle } => {
                let h = *handle;
                if h < self.handles.len() && self.handles[h].kind == CustomKind::Accumulate {
                    let rec = self.handles[h];
                    let hc = if rec.tracker.hash_counter < usize::MAX {
                        rec.tracker.hash_counter + 1
                    } else {
                        rec.tracker.hash_counter
                    };
                    self.handles.set(
                        h,
                        HandleRecord { tracker: Tracker { hash_counter: hc, ..rec.tracker }, ..rec },
                    );
                    rec.state as u32
                } else {
                    h as u32
                }
            },
        }
    }

    /// Counts one consultation of a handle's equality.
    fn count_eq(&mut self, h: usize)
        requires
            old(self).wf(),
            h < old(self).handles@.len(),
        ensures
            final(self).wf(),
            final(self).mode == old(self).mode,
            final(self).classes@ == old(self).classes@,
            final(self).objects@ == old(self).objects@,
            final(self).handles@ == old(self).handles@.update(
                h as int,
                eq_counted(old(self).handles@[h as int]),
            ),
    {
        let rec = self.handles[h];
        let ec = if rec.tracker.eq_counter < usize::MAX {
            rec.tracker.eq_counter + 1
        } else {
            rec.tracker.eq_counter
        };
        self.handles.set(h, HandleRecord { tracker: Tracker { eq_counter: ec, ..rec.tracker }, ..rec });
    }

    /// Whether two callables are equal, as `spec_equal` says. A custom
    /// equality is consulted only between two distinct handles, and then
    /// once, counted on both.
    pub fn callables_equal(&mut self, a: &Callable, b: &Callable) -> (r: bool)
        requires
            old(self).wf(),
        ensures
            final(self).wf(),
            final(self).mode == old(self).mode,
            final(self).classes@ == old(self).classes@,
            final(self).objects@ == old(self).objects@,
            final(self).handles@ == old(self).compared_handles(*a, *b),
            r == old(self).spec_equal(*a, *b),
    {
        let targets = match (&a.target, &b.target) {
            (Target::Null, Target::Null) => true,
            (
                Target::Method { object: o1, method: m1 },
                Target::Method { object: o2, method: m2 },
            ) => *o1 == *o2 && m1.eq(m2),
            (
                Target::Static { class: c1, method: m1 },
                Target::Static { class: c2, method: m2 },
            ) => c1.eq(c2) && m1.eq(m2),
            (Target::Custom { handle: ha }, Target::Custom { handle: hb }) => {
                let (ha, hb) = (*ha, *hb);
                if ha == hb {
                    true
                } else if ha < self.handles.len() && hb < self.handles.len()
                    && self.handles[ha].kind == CustomKind::Accumulate
                    && self.handles[hb].kind == CustomKind::Accumulate {
                    let same = self.handles[ha].state == self.handles[hb].state;
                    self.count_eq(ha);
                    self.count_eq(hb);
                    same
                } else {
                    false
                }
            },
            _ => false,
        };
        targets && values_agree(&a.bound, &b.bound) && a.unbound == b.unbound
    }
}

/// The hash of a callable in a host, as `Host::hash` gives it.
pub fn callable_hash(host: &mut Host, c: &Callable) -> (r: u32)
    requires
        old(host).wf(),
    ensures
        final(host).wf(),
        final(host).mode == old(host).mode,
        final(host).classes@ == old(host).classes@,
        final(host).objects@ == old(host).objects@,
        final(host).handles@ == old(host).hashed_handles(*c),
        r == old(host).spec_hash(*c),
{
    host.hash(c)
}

} // verus!
