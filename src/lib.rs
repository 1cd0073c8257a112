//! A verified model of first-class callables: bound object methods and
//! guest-defined custom functions, with argument binding, a failure-containing
//! invoker, identity (equality and hashing) and a thread-affinity guard.

mod callable;
mod custom;
mod hashing;
mod host;
mod identity;
mod invoke;
mod laws;
mod text;
mod value;

pub use callable::{
    callable_bind, callable_unbind, effective, same_adjustments, same_target, ArgumentError,
    Callable, Target,
};
pub use custom::{
    bump_usize, custom_outcome, running_sum, wrap_inc_u32, eq_count, eq_counted, fits_i32, hash_count,
    hash_counted, sum_from, Adder, CustomKind, HandleRecord, PanicCallable, Tracker,
};
pub use hashing::{fold_hash, hash_step, spec_fold_hash};
pub use host::{
    args_fit, callable_arg_len, has_method, method_index, unique_names, CallableRefcountTest,
    CallableTestObj, ClassDecl, Host, MethodAction, MethodDecl, ObjectRecord, ThreadMode,
};
pub use identity::callable_hash;
pub use invoke::{
    acts_without_object, as_reply, call_matches, described, first_or_nil, reply_matches, result_matches, stored_value,
    CallError, Reply,
};
pub use laws::{
    lemma_bound_arguments_of_bind, lemma_cross_thread_call_refused,
    lemma_destroyed_object_unresolved, lemma_destroyed_target_inert,
    lemma_distinct_equal_handles_counted_once, lemma_equal_callables_hash_alike,
    lemma_excess_arguments_inert, lemma_hash_repeatable, lemma_shared_handle_equal_uncounted,
};
pub use text::{decimal, digit_char, digits, push_decimal, to_decimal};
pub use value::{
    duplicate_values, has_kind, same_value, same_values, values_agree, Value, ValueKind,
};
