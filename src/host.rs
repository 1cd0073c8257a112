//! The host runtime: classes, objects with stable instance ids, and method lookup.

use vstd::prelude::*;

use crate::callable::{Callable, Target};
use crate::custom::HandleRecord;
use crate::value::{has_kind, Value, ValueKind};

verus! {

/// How custom functions may be invoked across threads.
#[derive(Clone, Copy, Debug, PartialEq, Eq, Structural)]
pub enum ThreadMode {
    /// Single-threaded, with the affinity check compiled in: a cross-thread
    /// call of a thread-bound handle is refused.
    SingleChecked,
    /// Single-threaded without the check: a cross-thread call of a
    /// thread-bound handle is undefined, and is not allowed here.
    SingleUnchecked,
    /// Cross-thread calls are permitted; guests synchronise their own state.
    Multi,
}

/// What a method of a host class does when invoked.
#[derive(Clone, Copy, Debug, PartialEq, Eq, Structural)]
pub enum MethodAction {
    /// Stores the first argument, when it is an integer, in the object's
    /// field; returns nil.
    Store,
    /// Returns the first argument (nil when there is none).
    Echo,
    /// Returns the object's field.
    Read,
    /// Returns the decimal text of the first argument, when it is an
    /// integer; nil otherwise.
    Describe,
}

/// A method of a host class: its name, the kinds of its parameters, its action.
pub struct MethodDecl {
    pub name: String,
    pub params: Vec<ValueKind>,
    pub action: MethodAction,
}

/// A host class: a name and its methods, whose names are unique.
pub struct ClassDecl {
    pub name: String,
    pub methods: Vec<MethodDecl>,
}

/// A host object: its class, whether it is still alive, its integer field.
#[derive(Clone, Copy, Debug, PartialEq, Eq, Structural)]
pub struct ObjectRecord {
    pub class: usize,
    pub alive: bool,
    pub value: i64,
}

/// The host runtime: its thread mode, classes, objects and custom handles.
/// An object's instance id is its index in `objects`.
pub struct Host {
    pub mode: ThreadMode,
    pub classes: Vec<ClassDecl>,
    pub objects: Vec<ObjectRecord>,
    pub handles: Vec<HandleRecord>,
    /// The display name of each handle, by index.
    pub names: Vec<String>,
}

/// An object whose method takes a callable as argument and does nothing with it.
#[derive(Clone, Copy, Debug, PartialEq, Eq, Structural)]
pub struct CallableRefcountTest {}

/// A plain object with one integer field, and the class that hosts it.
#[derive(Clone, Copy, Debug, PartialEq, Eq, Structural)]
pub struct CallableTestObj {
    pub value: i64,
}

/// Method names in a class are unique.
pub open spec fn unique_names(c: ClassDecl) -> bool {
    forall|i: int, j: int|
        0 <= i < j < c.methods@.len() ==> (#[trigger] c.methods@[i]).name@
            != (#[trigger] c.methods@[j]).name@
}

/// The class declares a method named `name`.
pub open spec fn has_method(c: ClassDecl, name: Seq<char>) -> bool {
    exists|i: int| 0 <= i < c.methods@.len() && (#[trigger] c.methods@[i]).name@ == name
}

/// The index of the method named `name` in the class.
pub open spec fn method_index(c: ClassDecl, name: Seq<char>) -> int {
    choose|i: int| 0 <= i < c.methods@.len() && (#[trigger] c.methods@[i]).name@ == name
}

/// The arguments match the method's parameters in number and kind.
pub open spec fn args_fit(m: MethodDecl, args: Seq<Value>) -> bool {
    args.len() == m.params@.len() && forall|i: int|
        0 <= i < args.len() ==> has_kind(#[trigger] args[i], m.params@[i])
}

impl Host {
    /// Every object names a declared class, and every class has unique method names.
    pub open spec fn wf(self) -> bool {
        &&& forall|i: int|
            0 <= i < self.objects@.len() ==> (#[trigger] self.objects@[i]).class
                < self.classes@.len()
        &&& forall|k: int| 0 <= k < self.classes@.len() ==> unique_names(#[trigger] self.classes@[k])
        &&& self.names@.len() == self.handles@.len()
        &&& forall|i: int, j: int|
            0 <= i < j < self.classes@.len() ==> (#[trigger] self.classes@[i]).name@
                != (#[trigger] self.classes@[j]).name@
    }

    /// A class of this name is registered.
    pub open spec fn has_class(self, name: Seq<char>) -> bool {
        exists|k: int| 0 <= k < self.classes@.len() && (#[trigger] self.classes@[k]).name@ == name
    }

    /// The index of the class of this name.
    pub open spec fn class_index(self, name: Seq<char>) -> int {
        choose|k: int| 0 <= k < self.classes@.len() && (#[trigger] self.classes@[k]).name@ == name
    }

    /// The class of this name.
    pub open spec fn class_named(self, name: Seq<char>) -> ClassDecl {
        self.classes@[self.class_index(name)]
    }

    /// The object with this id exists and is alive.
    pub open spec fn resolves(self, object: u64) -> bool {
        object < self.objects@.len() && self.objects@[object as int].alive
    }

    /// The class of the object with this id.
    pub open spec fn class_of(self, object: u64) -> ClassDecl {
        self.classes@[self.objects@[object as int].class as int]
    }

    /// The method a live object's class declares under this name.
    pub open spec fn method_of(self, object: u64, name: Seq<char>) -> MethodDecl {
        self.class_of(object).methods@[method_index(self.class_of(object), name)]
    }

    /// The arity a callable reports: the method's parameter count (zero when
    /// it does not resolve, or for a custom function), plus the unbind count,
    /// less the bound count.
    pub open spec fn spec_arg_len(self, c: Callable) -> int {
        let declared = match c.target {
            Target::Method { object, method } => if self.resolves(object) && has_method(
                self.class_of(object),
                method@,
            ) {
                self.method_of(object, method@).params@.len() as int
            } else {
                0
            },
            _ => 0,
        };
        declared + c.unbound - c.bound@.len()
    }

    /// A host with no classes, objects or handles.
    pub fn new(mode: ThreadMode) -> (r: Host)
        ensures
            r.wf(),
            r.mode == mode,
            r.classes@.len() == 0,
            r.objects@.len() == 0,
            r.handles@.len() == 0,
            r.names@.len() == 0,
    {
        Host {
            mode,
            classes: Vec::new(),
            objects: Vec::new(),
            handles: Vec::new(),
            names: Vec::new(),
        }
    }
}

/// Finds the method named `name` in the class.
pub(crate) fn lookup_method(c: &ClassDecl, name: &String) -> (r: Option<usize>)
    requires
        unique_names(*c),
    ensures
        r is Some <==> has_method(*c, name@),
        r is Some ==> r->0 == method_index(*c, name@),
{
    let mut i: usize = 0;
    while i < c.methods.len()
        invariant
            unique_names(*c),
            i <= c.methods@.len(),
            forall|j: int| 0 <= j < i ==> (#[trigger] c.methods@[j]).name@ != name@,
        decreases c.methods@.len() - i,
    {
        if c.methods[i].name.eq(name) {
            proof {
                let k = method_index(*c, name@);
                assert(0 <= k < c.methods@.len() && c.methods@[k].name@ == name@);
                if k != i {
                    if k < i {
                        assert(c.methods@[k].name@ != name@);
                    } else {
                        assert(c.methods@[i as int].name@ != c.methods@[k].name@);
                    }
                }
            }
            return Some(i);
        }
        i += 1;
    }
    None
}

/// Whether the class's method names are unique.
fn names_unique(c: &ClassDecl) -> (r: bool)
    ensures
        r == unique_names(*c),
{
    let n = c.methods.len();
    let mut j: usize = 0;
    while j < n
        invariant
            n == c.methods@.len(),
            j <= n,
            forall|a: int, b: int|
                0 <= a < b < j ==> (#[trigger] c.methods@[a]).name@
                    != (#[trigger] c.methods@[b]).name@,
        decreases n - j,
    {
        let mut i: usize = 0;
        while i < j
            invariant
                n == c.methods@.len(),
                i <= j < n,
                forall|a: int| 0 <= a < i ==> (#[trigger] c.methods@[a]).name@ != c.methods@[j as int].name@,
            decreases j - i,
        {
            if c.methods[i].name.eq(&c.methods[j].name) {
                return false;
            }
            i += 1;
        }
        j += 1;
    }
    true
}

impl Host {
    /// Registers a class and returns its index; none when two of its methods
    /// share a name, or a class of its name is registered already.
    pub fn add_class(&mut self, class: ClassDecl) -> (r: Option<usize>)
        requires
            old(self).wf(),
        ensures
            final(self).wf(),
            final(self).mode == old(self).mode,
            final(self).objects@ == old(self).objects@,
            final(self).handles@ == old(self).handles@,
            unique_names(class) && !old(self).has_class(class.name@) ==> r == Some(
                old(self).classes@.len() as usize,
            ) && final(self).classes@ == old(self).classes@.push(class),
            !unique_names(class) || old(self).has_class(class.name@) ==> r is None
                && final(self).classes@ == old(self).classes@,
    {
        if !names_unique(&class) || self.lookup_class(&class.name).is_some() {
            return None;
        }
        let k = self.classes.len();
        self.classes.push(class);
        proof {
            assert(forall|i: int| 0 <= i < old(self).classes@.len() ==> self.classes@[i] == old(self).classes@[i]);
        }
        Some(k)
    }

    /// Finds the class of this name.
    pub(crate) fn lookup_class(&self, name: &String) -> (r: Option<usize>)
        requires
            self.wf(),
        ensures
            r is Some <==> self.has_class(name@),
            r is Some ==> r->0 == self.class_index(name@) && r->0 < self.classes@.len(),
    {
        let mut i: usize = 0;
        while i < self.classes.len()
            invariant
                self.wf(),
                i <= self.classes@.len(),
                forall|j: int| 0 <= j < i ==> (#[trigger] self.classes@[j]).name@ != name@,
            decreases self.classes@.len() - i,
        {
            if self.classes[i].name.eq(name) {
                proof {
                    let k = self.class_index(name@);
                    if k != i {
                        if k < i {
                            assert(self.classes@[k].name@ != name@);
                        } else {
                            assert(self.classes@[i as int].name@ != self.classes@[k].name@);
                        }
                    }
                }
                return Some(i);
            }
            i += 1;
        }
        None
    }

    /// Creates a live object of class `class` with its field at zero, and
    /// returns its instance id.
    pub fn new_object(&mut self, class: usize) -> (id: u64)
        requires
            old(self).wf(),
            class < old(self).classes@.len(),
            old(self).objects@.len() < u64::MAX,
        ensures
            final(self).wf(),
            final(self).mode == old(self).mode,
            final(self).classes@ == old(self).classes@,
            final(self).handles@ == old(self).handles@,
            id == old(self).objects@.len(),
            final(self).objects@ == old(self).objects@.push(
                ObjectRecord { class, alive: true, value: 0 },
            ),
    {
        let id = self.objects.len() as u64;
        self.objects.push(ObjectRecord { class, alive: true, value: 0 });
        id
    }

    /// Destroys the object with this id, if there is one; callables that
    /// name it keep its id.
    pub fn free_object(&mut self, id: u64)
        requires
            old(self).wf(),
        ensures
            final(self).wf(),
            final(self).mode == old(self).mode,
            final(self).classes@ == old(self).classes@,
            final(self).handles@ == old(self).handles@,
            id < old(self).objects@.len() ==> final(self).objects@ == old(self).objects@.update(
                id as int,
                ObjectRecord { alive: false, ..old(self).objects@[id as int] },
            ),
            id >= old(self).objects@.len() ==> final(self).objects@ == old(self).objects@,
    {
        if id < self.objects.len() as u64 {
            let i = id as usize;
            let rec = self.objects[i];
            self.objects.set(i, ObjectRecord { alive: false, ..rec });
        }
    }

    /// The field of the live object with this id.
    pub fn object_value(&self, id: u64) -> (r: Option<i64>)
        ensures
            self.resolves(id) ==> r == Some(self.objects@[id as int].value),
            !self.resolves(id) ==> r is None,
    {
        if id < self.objects.len() as u64 && self.objects[id as usize].alive {
            Some(self.objects[id as usize].value)
        } else {
            None
        }
    }

    /// The live object a callable is bound to: none when the object was
    /// destroyed, or for a null or custom callable.
    pub fn object(&self, c: &Callable) -> (r: Option<u64>)
        ensures
            r == (match c.target {
                Target::Method { object, .. } => if self.resolves(object) {
                    Some(object)
                } else {
                    None
                },
                _ => None::<u64>,
            }),
    {
        match &c.target {
            Target::Method { object, .. } => {
                if *object < self.objects.len() as u64 && self.objects[*object as usize].alive {
                    Some(*object)
                } else {
                    None
                }
            },
            _ => None,
        }
    }

    /// Finds the method a callable names on its live object.
    pub(crate) fn resolve_method(&self, object: u64, name: &String) -> (r: Option<(usize, usize)>)
        requires
            self.wf(),
        ensures
            r is Some <==> self.resolves(object) && has_method(self.class_of(object), name@),
            (r matches Some((k, m)) ==> k == self.objects@[object as int].class && m
                == method_index(self.class_of(object), name@) && k < self.classes@.len() && m
                < self.classes@[k as int].methods@.len()),
    {
        if object >= self.objects.len() as u64 || !self.objects[object as usize].alive {
            return None;
        }
        let k = self.objects[object as usize].class;
        match lookup_method(&self.classes[k], name) {
            Some(m) => Some((k, m)),
            None => None,
        }
    }

    /// Whether the callable can be invoked: its object is alive and declares
    /// the method, or its custom handle exists.
    pub fn is_valid(&self, c: &Callable) -> (r: bool)
        requires
            self.wf(),
        ensures
            r == (match c.target {
                Target::Null => false,
                Target::Method { object, method } => self.resolves(object) && has_method(
                    self.class_of(object),
                    method@,
                ),
                Target::Static { class, method } => self.has_class(class@) && has_method(
                    self.class_named(class@),
                    method@,
                ),
                Target::Custom { handle } => handle < self.handles@.len(),
            }),
    {
        match &c.target {
            Target::Null => false,
            Target::Method { object, method } => self.resolve_method(*object, method).is_some(),
            Target::Static { class, method } => match self.lookup_class(class) {
                Some(k) => lookup_method(&self.classes[k], method).is_some(),
                None => false,
            },
            Target::Custom { handle } => *handle < self.handles.len(),
        }
    }

    /// The arity the callable reports, as `spec_arg_len` says.
    pub fn arg_len(&self, c: &Callable) -> (r: i128)
        requires
            self.wf(),
        ensures
            r == self.spec_arg_len(*c),
    {
        let declared: i128 = match &c.target {
            Target::Method { object, method } => match self.resolve_method(*object, method) {
                Some((k, m)) => self.classes[k].methods[m].params.len() as i128,
                None => 0,
            },
            _ => 0,
        };
        declared + c.unbound as i128 - c.bound.len() as i128
    }
}

impl Host {
    /// Whether the host is well formed, as `wf` says.
    pub fn is_wf(&self) -> (r: bool)
        ensures
            r == self.wf(),
    {
        if self.names.len() != self.handles.len() {
            return false;
        }
        let mut i: usize = 0;
        while i < self.objects.len()
            invariant
                i <= self.objects@.len(),
                forall|j: int| 0 <= j < i ==> (#[trigger] self.objects@[j]).class < self.classes@.len(),
            decreases self.objects@.len() - i,
        {
            if self.objects[i].class >= self.classes.len() {
                return false;
            }
            i += 1;
        }
        let mut k: usize = 0;
        while k < self.classes.len()
            invariant
                k <= self.classes@.len(),
                forall|j: int| 0 <= j < k ==> unique_names(#[trigger] self.classes@[j]),
            decreases self.classes@.len() - k,
        {
            if !names_unique(&self.classes[k]) {
                return false;
            }
            k += 1;
        }
        let n = self.classes.len();
        let mut j: usize = 0;
        while j < n
            invariant
                n == self.classes@.len(),
                j <= n,
                forall|a: int, b: int|
                    0 <= a < b < j ==> (#[trigger] self.classes@[a]).name@
                        != (#[trigger] self.classes@[b]).name@,
            decreases n - j,
        {
            let mut i: usize = 0;
            while i < j
                invariant
                    n == self.classes@.len(),
                    i <= j < n,
                    forall|a: int|
                        0 <= a < i ==> (#[trigger] self.classes@[a]).name@
                            != self.classes@[j as int].name@,
                decreases j - i,
            {
                if self.classes[i].name.eq(&self.classes[j].name) {
                    return false;
                }
                i += 1;
            }
            j += 1;
        }
        true
    }
}

impl CallableTestObj {
    /// Stores `a` in the field.
    pub fn foo(&mut self, a: i64)
        ensures
            final(self).value == a,
    {
        self.value = a;
    }

    /// The host class for such objects: `foo` takes an `i32` integer and
    /// stores it, `bar` takes an `i32` integer and returns its decimal text,
    /// `baz` takes an `i32` integer, a string and two values of any kind and
    /// returns its first argument, and `static_function` takes an `i32`
    /// integer and returns its decimal text without needing an object.
    pub fn class_decl() -> (r: ClassDecl)
        ensures
            r.name@ == "CallableTestObj"@,
            r.methods@.len() == 4,
            r.methods@[0].name@ == "foo"@,
            r.methods@[0].params@ == seq![ValueKind::Int32],
            r.methods@[0].action == MethodAction::Store,
            r.methods@[1].name@ == "bar"@,
            r.methods@[1].params@ == seq![ValueKind::Int32],
            r.methods@[1].action == MethodAction::Describe,
            r.methods@[2].name@ == "baz"@,
            r.methods@[2].params@ == seq![ValueKind::Int32, ValueKind::Str, ValueKind::Any, ValueKind::Any],
            r.methods@[2].action == MethodAction::Echo,
            r.methods@[3].name@ == "static_function"@,
            r.methods@[3].params@ == seq![ValueKind::Int32],
            r.methods@[3].action == MethodAction::Describe,
    {
        let foo = MethodDecl {
            name: "foo".to_string(),
            params: vec![ValueKind::Int32],
            action: MethodAction::Store,
        };
        let bar = MethodDecl {
            name: "bar".to_string(),
            params: vec![ValueKind::Int32],
            action: MethodAction::Describe,
        };
        let baz = MethodDecl {
            name: "baz".to_string(),
            params: vec![ValueKind::Int32, ValueKind::Str, ValueKind::Any, ValueKind::Any],
            action: MethodAction::Echo,
        };
        let static_function = MethodDecl {
            name: "static_function".to_string(),
            params: vec![ValueKind::Int32],
            action: MethodAction::Describe,
        };
        let r = ClassDecl {
            name: "CallableTestObj".to_string(),
            methods: vec![foo, bar, baz, static_function],
        };
        proof {
            assert(r.methods@[2].params@ =~= seq![ValueKind::Int32, ValueKind::Str, ValueKind::Any, ValueKind::Any]);
            assert(r.methods@[0].params@ =~= seq![ValueKind::Int32]);
            assert(r.methods@[1].params@ =~= seq![ValueKind::Int32]);
            assert(r.methods@[3].params@ =~= seq![ValueKind::Int32]);
        }
        r
    }
}

impl CallableRefcountTest {
    /// Takes a callable by value and releases it.
    pub fn accept_callable(&self, call: Callable) {
    }
}

/// The arity a callable reports in a host, as `Host::arg_len` gives it.
pub fn callable_arg_len(host: &Host, c: &Callable) -> (r: i128)
    requires
        host.wf(),
    ensures
        r == host.spec_arg_len(*c),
{
    host.arg_len(c)
}

} // verus!
