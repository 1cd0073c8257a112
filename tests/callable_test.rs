use callables::{
    MethodAction, MethodDecl,
    callable_hash, eq_count, to_decimal, fold_hash,
    hash_count, Adder, ArgumentError, CallError, Callable, CallableRefcountTest, CallableTestObj,
    CustomKind, Host, PanicCallable, Target, ThreadMode, Tracker, Value,
};

const MAIN: u64 = 1;
const OTHER: u64 = 2;

fn host_with_object(mode: ThreadMode) -> (Host, u64) {
    let mut host = Host::new(mode);
    let class = host.add_class(CallableTestObj::class_decl()).unwrap();
    let id = host.new_object(class);
    (host, id)
}

fn ival(x: i64) -> Value {
    Value::Int(x)
}

fn text(s: &str) -> Value {
    Value::Str(s.to_string())
}

#[test]
fn callable_validity() {
    let (host, id) = host_with_object(ThreadMode::SingleChecked);
    let foo = Callable::from_object_method(id, "foo");
    assert!(host.is_valid(&foo));
    assert!(!foo.is_null());
    assert!(!foo.is_custom());
    assert_eq!(host.object(&foo), Some(id));

    let missing = Callable::from_object_method(id, "doesn't_exist");
    assert!(!host.is_valid(&missing));
    assert!(!missing.is_null());
    assert!(!missing.is_custom());
    assert_eq!(host.object(&missing), Some(id));

    let invalid = Callable::invalid();
    assert!(!host.is_valid(&invalid));
    assert!(invalid.is_null());
    assert!(!invalid.is_custom());
    assert_eq!(host.object(&invalid), None);
    assert_eq!(invalid.object_id(), None);
    assert_eq!(invalid.method_name(), None);
}

#[test]
fn hash_same_method_is_stable() {
    let (mut host, id) = host_with_object(ThreadMode::SingleChecked);
    let a = Callable::from_object_method(id, "foo");
    let b = Callable::from_object_method(id, "foo");
    let c = Callable::from_object_method(id, "bar");
    let ha = callable_hash(&mut host, &a);
    assert_eq!(ha, callable_hash(&mut host, &a));
    assert_eq!(ha, host.hash(&b));
    assert_ne!(ha, host.hash(&c));
    assert_eq!(host.hash(&Callable::invalid()), 0);
}

#[test]
fn hash_of_text_exact() {
    assert_eq!(fold_hash(0, &"ab".to_string()), 97 * 31 + 98);
    assert_eq!(fold_hash(7, &String::new()), 7);
}

#[test]
fn callable_object_method() {
    let (mut host, id) = host_with_object(ThreadMode::SingleChecked);
    let callable = Callable::from_object_method(id, "foo");
    assert_eq!(host.object(&callable), Some(id));
    assert_eq!(callable.object_id(), Some(id));
    assert_eq!(callable.method_name(), Some("foo".to_string()));

    host.free_object(id);
    assert_eq!(callable.object_id(), Some(id));
    assert_eq!(host.object(&callable), None);
    assert_eq!(callable.method_name(), Some("foo".to_string()));
}

#[test]
fn call_on_destroyed_target_yields_nil() {
    let (mut host, id) = host_with_object(ThreadMode::SingleChecked);
    let callable = Callable::from_object_method(id, "foo");
    host.free_object(id);
    assert_eq!(
        host.try_call(&callable, &[ival(5)], MAIN),
        Err(CallError::DeadTarget)
    );
    assert_eq!(host.call(&callable, &[ival(5)], MAIN), Value::Nil);
    assert_eq!(host.objects[id as usize].value, 0);
}

#[test]
fn callable_callv() {
    let (mut host, id) = host_with_object(ThreadMode::SingleChecked);
    let callable = Callable::from_object_method(id, "foo");

    assert_eq!(host.object_value(id), Some(0));
    host.callv(&callable, &vec![ival(10)], MAIN);
    assert_eq!(host.object_value(id), Some(10));

    host.callv(&callable, &vec![ival(20), ival(30)], MAIN);
    assert_eq!(host.object_value(id), Some(10));

    assert_eq!(host.callv(&callable, &vec![text("string")], MAIN), Value::Nil);
    assert_eq!(host.object_value(id), Some(10));

    assert_eq!(
        host.callv(&Callable::invalid(), &vec![ival(1), ival(2), ival(3)], MAIN),
        Value::Nil
    );
}

#[test]
fn callable_call() {
    let (mut host, id) = host_with_object(ThreadMode::SingleChecked);
    let callable = Callable::from_object_method(id, "foo");

    assert_eq!(host.object_value(id), Some(0));
    host.call(&callable, &[ival(10)], MAIN);
    assert_eq!(host.object_value(id), Some(10));

    assert_eq!(
        host.try_call(&callable, &[ival(20), ival(30)], MAIN),
        Err(CallError::ArgumentMismatch)
    );
    assert_eq!(host.object_value(id), Some(10));

    assert_eq!(host.call(&callable, &[text("not-an-int")], MAIN), Value::Nil);
    assert_eq!(host.object_value(id), Some(10));

    assert_eq!(
        host.try_call(&Callable::invalid(), &[ival(1), ival(2), ival(3)], MAIN),
        Err(CallError::NullCallable)
    );
}

#[test]
fn callable_call_return() {
    let (mut host, id) = host_with_object(ThreadMode::SingleChecked);
    let callable = Callable::from_object_method(id, "bar");
    assert_eq!(host.callv(&callable, &vec![ival(10)], MAIN), text("10"));
    assert_eq!(host.callv(&callable, &vec![text("string")], MAIN), Value::Nil);
}

#[test]
fn call_missing_method() {
    let (mut host, id) = host_with_object(ThreadMode::SingleChecked);
    let callable = Callable::from_object_method(id, "nope");
    assert_eq!(
        host.try_call(&callable, &[], MAIN),
        Err(CallError::NoSuchMethod)
    );
}

#[test]
fn callable_bindv() {
    let (mut host, id) = host_with_object(ThreadMode::SingleChecked);
    let callable = Callable::from_object_method(id, "bar");
    let bound = callable.bindv(&vec![ival(10)]);
    assert_eq!(host.callv(&bound, &vec![], MAIN), text("10"));
}

#[test]
fn callable_bind() {
    let (mut host, id) = host_with_object(ThreadMode::SingleChecked);
    let callable = Callable::from_object_method(id, "bar");
    let bound = callables::callable_bind(&callable, &[ival(10)]);
    assert_eq!(host.call(&bound, &[], MAIN), text("10"));
    assert_eq!(callable.get_bound_arguments(), vec![]);
    assert_eq!(callable.bound_args_len(false), 0);
    assert_eq!(host.call(&callable, &[ival(10)], MAIN), text("10"));
}

#[test]
fn callable_unbind() {
    let (mut host, id) = host_with_object(ThreadMode::SingleChecked);
    let callable = Callable::from_object_method(id, "bar");
    let unbound = callables::callable_unbind(&callable, 3).unwrap();
    assert_eq!(
        host.call(&unbound, &[ival(121), ival(20), ival(30), ival(40)], MAIN),
        text("121")
    );
    assert_eq!(
        host.try_call(&unbound, &[ival(1), ival(2)], MAIN),
        Err(CallError::ArgumentMismatch)
    );
}

#[test]
fn unbind_negative_refused() {
    let callable = Callable::invalid();
    assert_eq!(
        callable.unbind(-1).unwrap_err(),
        ArgumentError::NegativeCount
    );
    let big = callable.unbind(i64::MAX).unwrap();
    let bigger = big.unbind(i64::MAX).unwrap();
    assert_eq!(bigger.unbound, 2 * (i64::MAX as u64));
    assert_eq!(bigger.unbind(2).unwrap_err(), ArgumentError::CountTooLarge);
}

#[test]
fn callable_arg_len() {
    let (host, id) = host_with_object(ThreadMode::SingleChecked);
    let foo = Callable::from_object_method(id, "foo");
    let bar = Callable::from_object_method(id, "bar");
    let baz = Callable::from_object_method(id, "baz");
    assert_eq!(callables::callable_arg_len(&host, &foo), 1);
    assert_eq!(host.arg_len(&bar), 1);
    assert_eq!(host.arg_len(&baz), 4);
    assert_eq!(host.arg_len(&foo.unbind(10).unwrap()), 11);
    assert_eq!(host.arg_len(&baz.bind(&[ival(10), text("hello")])), 2);
}

#[test]
fn callable_bound_args_len() {
    let (_host, id) = host_with_object(ThreadMode::SingleChecked);
    let foo = Callable::from_object_method(id, "foo");
    assert_eq!(foo.bound_args_len(true), 0);
    assert_eq!(foo.bindv(&vec![ival(10)]).bound_args_len(true), 1);
    assert_eq!(foo.unbind(28).unwrap().bound_args_len(true), -28);
    assert_eq!(foo.unbind(28).unwrap().bound_args_len(false), 0);
    let both = foo.bindv(&vec![ival(10)]).unbind(5).unwrap();
    assert_eq!(both.bound_args_len(true), -4);
    assert_eq!(both.bound_args_len(false), 1);
}

#[test]
fn callable_get_bound_arguments() {
    let (_host, id) = host_with_object(ThreadMode::SingleChecked);
    let vals = vec![ival(10), text("hello!"), Value::Bool(true), Value::Nil];
    let callable = Callable::from_object_method(id, "baz");
    let bound = callable.bindv(&vals);
    assert_eq!(bound.get_bound_arguments(), vals);
    let again = bound.bind(&[ival(1)]);
    let mut expected = vals.clone();
    expected.push(ival(1));
    assert_eq!(again.get_bound_arguments(), expected);
}

#[test]
fn bound_arguments_follow_call_site_arguments() {
    let (_host, id) = host_with_object(ThreadMode::SingleChecked);
    let c = Callable::from_object_method(id, "baz")
        .bind(&[ival(3)])
        .unbind(1)
        .unwrap();
    assert_eq!(
        c.effective_args(&[ival(1), ival(2), ival(9)]),
        vec![ival(1), ival(2), ival(3)]
    );
}

#[test]
fn accept_callable_takes_any() {
    let t = CallableRefcountTest {};
    t.accept_callable(Callable::invalid());
    t.accept_callable(Callable::from_object_method(0, "foo"));
}

#[test]
fn test_obj_foo_stores() {
    let mut obj = CallableTestObj { value: 0 };
    obj.foo(42);
    assert_eq!(obj.value, 42);
}

#[test]
fn callable_from_local_fn() {
    let mut host = Host::new(ThreadMode::SingleChecked);
    let callable = host.from_local_fn("sum", CustomKind::Sum, MAIN);
    assert!(host.is_valid(&callable));
    assert!(!callable.is_null());
    assert!(callable.is_custom());
    assert_eq!(host.object(&callable), None);

    let sum1 = host.callv(&callable, &vec![ival(1), ival(2), ival(4), ival(8)], MAIN);
    assert_eq!(sum1, ival(15));

    let sum2 = host.callv(&callable, &vec![], MAIN);
    assert_eq!(sum2, ival(0));
}

#[test]
fn sum_overflow_is_contained() {
    let mut host = Host::new(ThreadMode::SingleChecked);
    let callable = host.from_local_fn("sum", CustomKind::Sum, MAIN);
    assert_eq!(
        host.try_call(&callable, &[ival(i32::MAX as i64), ival(1)], MAIN),
        Err(CallError::GuestFailure)
    );
    assert_eq!(
        host.try_call(&callable, &[ival(1 << 40)], MAIN),
        Err(CallError::GuestFailure)
    );
    assert_eq!(
        host.try_call(&callable, &[text("x")], MAIN),
        Err(CallError::GuestFailure)
    );
    assert_eq!(host.call(&callable, &[ival(2), ival(3)], MAIN), ival(5));
}

#[test]
fn callable_from_local_fn_crossthread() {
    let mut host = Host::new(ThreadMode::SingleChecked);
    let callable = host.from_local_fn("change_global", CustomKind::Accumulate, MAIN);
    let h = match callable.target {
        Target::Custom { handle } => handle,
        _ => unreachable!(),
    };
    assert_eq!(
        host.try_call(&callable, &[ival(5)], OTHER),
        Err(CallError::ThreadAffinity)
    );
    let rec = host.handle(h).unwrap();
    assert_eq!(rec.state, 0);
    assert_eq!(rec.received, 0);
}

#[test]
fn crossthread_allowed_in_multi_mode() {
    let mut host = Host::new(ThreadMode::Multi);
    let callable = host.from_custom(Adder::new(0), MAIN);
    assert_eq!(host.call(&callable, &[ival(5)], OTHER), ival(5));
}

#[test]
fn callable_from_sync_fn() {
    let mut host = Host::new(ThreadMode::SingleChecked);
    let callable = host.from_sync_fn("sum", CustomKind::Sum, MAIN);
    assert!(host.is_valid(&callable));
    assert!(!callable.is_null());
    assert!(callable.is_custom());
    assert_eq!(host.object(&callable), None);

    assert_eq!(host.callv(&callable, &vec![ival(1), ival(2), ival(4), ival(8)], OTHER), ival(15));
    assert_eq!(host.callv(&callable, &vec![ival(5)], OTHER), ival(5));
    assert_eq!(host.callv(&callable, &vec![], OTHER), ival(0));
}

#[test]
fn callable_custom_with_err() {
    let mut host = Host::new(ThreadMode::SingleChecked);
    let callable = host.from_local_fn("on_error_doesnt_crash", CustomKind::Fail, MAIN);
    assert_eq!(host.callv(&callable, &vec![], MAIN), Value::Nil);
    assert_eq!(
        host.try_call(&callable, &[], MAIN),
        Err(CallError::GuestFailure)
    );
}

#[test]
fn callable_from_fn_eq() {
    let mut host = Host::new(ThreadMode::SingleChecked);
    let a = host.from_local_fn("sum", CustomKind::Sum, MAIN);
    let b = a.duplicate();
    let c = host.from_local_fn("sum", CustomKind::Sum, MAIN);
    assert!(host.callables_equal(&a, &b));
    assert!(!host.callables_equal(&a, &c));
}

#[test]
fn callable_custom_invoke() {
    let mut host = Host::new(ThreadMode::SingleChecked);
    let callable = host.from_custom(Adder::new(0), MAIN);
    assert!(host.is_valid(&callable));
    assert!(!callable.is_null());
    assert!(callable.is_custom());
    assert_eq!(host.object(&callable), None);

    let sum1 = host.callv(&callable, &vec![ival(3), ival(9), ival(2), ival(1)], MAIN);
    assert_eq!(sum1, ival(15));
    let sum2 = host.callv(&callable, &vec![ival(4)], MAIN);
    assert_eq!(sum2, ival(19));
}

fn handle_of(c: &Callable) -> usize {
    match c.target {
        Target::Custom { handle } => handle,
        _ => unreachable!(),
    }
}

#[test]
fn callable_custom_eq() {
    let mut host = Host::new(ThreadMode::SingleChecked);
    let a = host.from_custom(Adder::new_tracked(3, Tracker::new()), MAIN);
    let b = host.from_custom(Adder::new_tracked(3, Tracker::new()), MAIN);
    let c = host.from_custom(Adder::new_tracked(4, Tracker::new()), MAIN);
    let (ha, hb, hc) = (handle_of(&a), handle_of(&b), handle_of(&c));
    let at = |h: &Host| h.handle(ha).unwrap().tracker;
    let bt = |h: &Host| h.handle(hb).unwrap().tracker;
    let ct = |h: &Host| h.handle(hc).unwrap().tracker;

    assert!(host.callables_equal(&a, &a));
    assert!(host.callables_equal(&a, &a.duplicate()));
    assert_eq!(eq_count(&at(&host)), 0);

    assert!(host.callables_equal(&a, &b));
    assert_eq!(eq_count(&at(&host)), 1);
    assert_eq!(eq_count(&bt(&host)), 1);

    assert!(!host.callables_equal(&a, &c));
    assert_eq!(eq_count(&at(&host)), 2);
    assert_eq!(eq_count(&ct(&host)), 1);

    assert!(host.callables_equal(&a.duplicate(), &b.duplicate()));
    assert_eq!(eq_count(&at(&host)), 3);
    assert_eq!(eq_count(&bt(&host)), 2);

    assert!(!host.callables_equal(&a.duplicate(), &c.duplicate()));
    assert_eq!(eq_count(&at(&host)), 4);
    assert_eq!(eq_count(&ct(&host)), 2);
}

#[test]
fn callable_custom_eq_hash() {
    let mut host = Host::new(ThreadMode::SingleChecked);
    let a = host.from_custom(Adder::new_tracked(3, Tracker::new()), MAIN);
    let b = host.from_custom(Adder::new_tracked(3, Tracker::new()), MAIN);
    let (ha, hb) = (handle_of(&a), handle_of(&b));

    let hash_a = host.hash(&a);
    assert_eq!(hash_count(&host.handle(ha).unwrap().tracker), 1);
    assert_eq!(eq_count(&host.handle(ha).unwrap().tracker), 0);

    let hash_b = host.hash(&b);
    assert_eq!(hash_count(&host.handle(ha).unwrap().tracker), 1);
    assert_eq!(hash_count(&host.handle(hb).unwrap().tracker), 1);
    assert_eq!(hash_a, hash_b);

    assert!(host.callables_equal(&b, &a));
    assert_eq!(eq_count(&host.handle(ha).unwrap().tracker), 1);
    assert_eq!(eq_count(&host.handle(hb).unwrap().tracker), 1);
}

#[test]
fn bound_arguments_part_of_equality() {
    let (mut host, id) = host_with_object(ThreadMode::SingleChecked);
    let a = Callable::from_object_method(id, "bar");
    let b = a.bind(&[ival(1)]);
    assert!(!host.callables_equal(&a, &b));
    assert!(host.callables_equal(&b, &a.bind(&[ival(1)])));
    assert!(!host.callables_equal(&b, &a.bind(&[ival(2)])));
    assert!(!host.callables_equal(&a, &a.unbind(1).unwrap()));
}

#[test]
fn callable_callv_panic_from_custom() {
    let mut host = Host::new(ThreadMode::SingleChecked);
    let callable = host.from_panicking(PanicCallable(0), MAIN);
    assert_eq!(Value::Nil, host.callv(&callable, &vec![], MAIN));
    assert_eq!(host.handle(handle_of(&callable)).unwrap().received, 1);
    assert_eq!(Value::Nil, host.callv(&callable, &vec![ival(1)], MAIN));
    assert_eq!(host.handle(handle_of(&callable)).unwrap().received, 2);
}

#[test]
fn callable_callv_panic_from_fn() {
    let mut host = Host::new(ThreadMode::SingleChecked);
    let callable = host.from_local_fn("test", CustomKind::Fault, MAIN);
    assert_eq!(Value::Nil, host.callv(&callable, &vec![], MAIN));
    assert_eq!(host.handle(handle_of(&callable)).unwrap().received, 1);
}

#[test]
fn tracker_and_adder_constructors() {
    let t = Tracker::new();
    assert_eq!(eq_count(&t), 0);
    assert_eq!(hash_count(&t), 0);
    let a = Adder::new(-2);
    assert_eq!(a.sum, -2);
    assert_eq!(a.tracker, t);
    let t2 = Tracker { eq_counter: 3, hash_counter: 4 };
    assert_eq!(Adder::new_tracked(5, t2).tracker, t2);
}

#[test]
fn duplicate_class_method_names_refused() {
    let mut host = Host::new(ThreadMode::SingleChecked);
    let mut class = CallableTestObj::class_decl();
    class.methods.push(MethodDecl {
        name: "foo".to_string(),
        params: vec![],
        action: MethodAction::Read,
    });
    assert_eq!(host.add_class(class), None);
}

#[test]
fn value_helpers() {
    assert!(Value::Nil.is_nil());
    assert!(text("a").same_as(&text("a")));
    assert!(!text("a").same_as(&text("b")));
    assert!(!ival(1).same_as(&Value::Bool(true)));
    assert_eq!(text("q").duplicate(), text("q"));
}

#[test]
fn callable_custom_to_string() {
    let mut host = Host::new(ThreadMode::SingleChecked);
    let callable = host.from_custom(Adder::new(-2), MAIN);
    assert_eq!(host.display(&callable), Some("Adder(sum=-2)".to_string()));
    let named = host.from_local_fn("sum", CustomKind::Sum, MAIN);
    assert_eq!(host.display(&named), Some("sum".to_string()));
    let panicking = host.from_panicking(PanicCallable(0), MAIN);
    assert_eq!(host.display(&panicking), Some("test".to_string()));
    assert_eq!(host.display(&Callable::invalid()), None);
}

#[test]
fn adder_keeps_additions_before_failure() {
    let mut host = Host::new(ThreadMode::SingleChecked);
    let callable = host.from_custom(Adder::new(0), MAIN);
    assert_eq!(
        host.try_call(&callable, &[ival(1), text("x"), ival(5)], MAIN),
        Err(CallError::GuestFailure)
    );
    assert_eq!(host.handle(handle_of(&callable)).unwrap().state, 1);
    assert_eq!(host.call(&callable, &[ival(2)], MAIN), ival(3));
}

#[test]
fn panic_counter_wraps() {
    let mut host = Host::new(ThreadMode::SingleChecked);
    let callable = host.from_panicking(PanicCallable(u32::MAX), MAIN);
    assert_eq!(host.call(&callable, &[], MAIN), Value::Nil);
    assert_eq!(host.handle(handle_of(&callable)).unwrap().received, 0);
}

#[test]
fn i32_parameters_refuse_wide_integers() {
    let (mut host, id) = host_with_object(ThreadMode::SingleChecked);
    let foo = Callable::from_object_method(id, "foo");
    let bar = Callable::from_object_method(id, "bar");
    assert_eq!(
        host.try_call(&foo, &[ival(1 << 40)], MAIN),
        Err(CallError::ArgumentMismatch)
    );
    assert_eq!(host.object_value(id), Some(0));
    assert_eq!(host.call(&bar, &[ival(-7)], MAIN), text("-7"));
    assert_eq!(host.call(&bar, &[ival(1 << 40)], MAIN), Value::Nil);
}

#[test]
fn decimal_text_exact() {
    assert_eq!(to_decimal(0), "0");
    assert_eq!(to_decimal(-2), "-2");
    assert_eq!(to_decimal(1234567890), "1234567890");
    assert_eq!(to_decimal(i64::MIN), "-9223372036854775808");
    assert_eq!(to_decimal(i64::MAX), "9223372036854775807");
}

#[test]
fn callable_static() {
    let (mut host, _id) = host_with_object(ThreadMode::SingleChecked);
    let callable = Callable::from_local_static("CallableTestObj", "static_function");
    assert_eq!(host.object(&callable), None);
    assert_eq!(callable.object_id(), None);
    assert_eq!(callable.method_name(), None);
    assert!(host.is_valid(&callable));

    let result = host.callv(&callable, &vec![ival(12345)], MAIN);
    assert_eq!(result, text("12345"));
    assert_eq!(host.arg_len(&callable), 0);
}

#[test]
fn static_call_needs_object_free_method() {
    let (mut host, _id) = host_with_object(ThreadMode::SingleChecked);
    let store = Callable::from_local_static("CallableTestObj", "foo");
    assert_eq!(
        host.try_call(&store, &[ival(1)], MAIN),
        Err(CallError::NoSuchMethod)
    );
    let missing = Callable::from_local_static("NoSuchClass", "bar");
    assert!(!host.is_valid(&missing));
    assert_eq!(
        host.try_call(&missing, &[ival(1)], MAIN),
        Err(CallError::NoSuchMethod)
    );
    let a = Callable::from_local_static("CallableTestObj", "bar");
    let b = Callable::from_local_static("CallableTestObj", "bar");
    assert!(host.callables_equal(&a, &b));
    assert_eq!(host.hash(&a), host.hash(&b));
    assert_eq!(host.add_class(CallableTestObj::class_decl()), None);
}
