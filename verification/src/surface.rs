use vstd::prelude::*;
use vstd::string::*;
use crate::error::Error;
use crate::metamethod::{is_restricted_name, name_is_restricted, MetaMethod};
use crate::methods::{
    calls_as,
    calls_mut_as,
    changes_as,
    gets_as,
    reads_as,
    sets_as,
    Behaviour,
    Entry,
    EntryKind,
    FieldGetter,
    FieldSetter,
    Function,
    FunctionMut,
    Method,
    MethodMut,
    UserDataFields,
    UserDataMethods,
};
use crate::strings::str_eq;
use crate::value::{FunctionRef, Value};

verus! {

/// A callable as a registry keeps it.
#[verifier::reject_recursive_types(T)]
enum Callable<T> {
    Method(Box<dyn Method<T>>),
    MethodMut(Box<dyn MethodMut<T>>),
    Function(Box<dyn Function>),
    FunctionMut(Box<dyn FunctionMut>),
    Getter(Box<dyn FieldGetter<T>>),
    Setter(Box<dyn FieldSetter<T>>),
    Callback(FunctionRef),
}

/// An entry of a registry: the name, the kind, and the callable.
#[verifier::reject_recursive_types(T)]
struct Stored<T> {
    name: String,
    kind: EntryKind,
    callable: Callable<T>,
}

/// Whether `entries` has an entry with the name `name` and a kind in `kinds`.
pub open spec fn has_entry(entries: Seq<Entry>, name: Seq<char>, kinds: Set<EntryKind>) -> bool {
    exists|i: int|
        0 <= i < entries.len() && (#[trigger] entries[i]).name == name && kinds.contains(
            entries[i].kind,
        )
}

/// The position of the last entry of `entries` with the name `name` and a kind in `kinds`: a
/// later registration of a name hides an earlier one.
pub open spec fn last_entry(entries: Seq<Entry>, name: Seq<char>, kinds: Set<EntryKind>) -> Option<
    int,
>
    decreases entries.len(),
{
    if entries.len() == 0 {
        None
    } else if entries.last().name == name && kinds.contains(entries.last().kind) {
        Some(entries.len() - 1)
    } else {
        last_entry(entries.drop_last(), name, kinds)
    }
}

/// The last entry found is an entry with the name and of one of the kinds, no later entry is
/// one, and none is found exactly if there is none.
pub proof fn lemma_last_entry(entries: Seq<Entry>, name: Seq<char>, kinds: Set<EntryKind>)
    ensures
        last_entry(entries, name, kinds) is Some == has_entry(entries, name, kinds),
        last_entry(entries, name, kinds) matches Some(i) ==> {
            &&& 0 <= i < entries.len()
            &&& entries[i].name == name
            &&& kinds.contains(entries[i].kind)
            &&& forall|j: int|
                i < j < entries.len() ==> !((#[trigger] entries[j]).name == name && kinds.contains(
                    entries[j].kind,
                ))
        },
    decreases entries.len(),
{
    if entries.len() == 0 {
    } else if entries.last().name == name && kinds.contains(entries.last().kind) {
        assert(entries[entries.len() - 1] == entries.last());
    } else {
        let shorter = entries.drop_last();
        lemma_last_entry(shorter, name, kinds);
        if has_entry(shorter, name, kinds) {
            let i = choose|i: int|
                0 <= i < shorter.len() && (#[trigger] shorter[i]).name == name && kinds.contains(
                    shorter[i].kind,
                );
            assert(entries[i] == shorter[i]);
        }
        if has_entry(entries, name, kinds) {
            let i = choose|i: int|
                0 <= i < entries.len() && (#[trigger] entries[i]).name == name && kinds.contains(
                    entries[i].kind,
                );
            assert(i < entries.len() - 1);
            assert(shorter[i] == entries[i]);
        }
        match last_entry(shorter, name, kinds) {
            Some(i) => {
                assert(entries[i] == shorter[i]);
                assert forall|j: int| i < j < entries.len() implies !((
                #[trigger] entries[j]).name == name && kinds.contains(entries[j].kind)) by {
                    if j < shorter.len() {
                        assert(shorter[j] == entries[j]);
                    }
                }
            },
            None => {},
        }
    }
}

/// Two sets of kinds that together make up a third find an entry exactly if the third does.
pub proof fn lemma_split_kinds(
    entries: Seq<Entry>,
    name: Seq<char>,
    first: Set<EntryKind>,
    second: Set<EntryKind>,
    both: Set<EntryKind>,
)
    requires
        both == first.union(second),
    ensures
        (last_entry(entries, name, first) is Some || last_entry(entries, name, second) is Some)
            == has_entry(entries, name, both),
{
    lemma_last_entry(entries, name, first);
    lemma_last_entry(entries, name, second);
    if has_entry(entries, name, first) {
        let i = choose|i: int|
            0 <= i < entries.len() && (#[trigger] entries[i]).name == name && first.contains(
                entries[i].kind,
            );
        assert(both.contains(entries[i].kind));
    }
    if has_entry(entries, name, second) {
        let i = choose|i: int|
            0 <= i < entries.len() && (#[trigger] entries[i]).name == name && second.contains(
                entries[i].kind,
            );
        assert(both.contains(entries[i].kind));
    }
    if has_entry(entries, name, both) {
        let i = choose|i: int|
            0 <= i < entries.len() && (#[trigger] entries[i]).name == name && both.contains(
                entries[i].kind,
            );
        assert(first.contains(entries[i].kind) || second.contains(entries[i].kind));
    }
}

/// The entry that a call by name runs: the last method of that name, or else the last
/// function of that name.
pub open spec fn called_by_name(entries: Seq<Entry>, name: Seq<char>) -> Option<int> {
    match last_entry(entries, name, set![EntryKind::Method, EntryKind::MethodMut]) {
        Some(i) => Some(i),
        None => last_entry(entries, name, set![EntryKind::Function, EntryKind::FunctionMut]),
    }
}

/// The entry that a call by operator runs: the last metamethod with a receiver for that
/// operator, or else the last one without.
pub open spec fn called_by_operator(entries: Seq<Entry>, name: Seq<char>) -> Option<int> {
    match last_entry(entries, name, set![EntryKind::MetaMethod, EntryKind::MetaMethodMut]) {
        Some(i) => Some(i),
        None => last_entry(
            entries,
            name,
            set![EntryKind::MetaFunction, EntryKind::MetaFunctionMut],
        ),
    }
}

/// Whether the callable that is kept for an entry is of the sort that the kind of the entry
/// asks for.
spec fn fits<T>(entry: Stored<T>) -> bool {
    match entry.kind {
        EntryKind::Method | EntryKind::MetaMethod => entry.callable is Method,
        EntryKind::MethodMut | EntryKind::MetaMethodMut => entry.callable is MethodMut,
        EntryKind::Function
        | EntryKind::MetaFunction
        | EntryKind::FieldFunctionGet
        | EntryKind::MetaField => entry.callable is Function,
        EntryKind::FunctionMut
        | EntryKind::MetaFunctionMut
        | EntryKind::FieldFunctionSet => entry.callable is FunctionMut,
        EntryKind::FieldGet => entry.callable is Getter,
        EntryKind::FieldSet => entry.callable is Setter,
        EntryKind::Callback
        | EntryKind::MetaCallback
        | EntryKind::FieldGetterCallback
        | EntryKind::FieldSetterCallback => entry.callable is Callback,
    }
}

/// Whether every callable kept is of the sort that the kind of its entry asks for.
spec fn all_fit<T>(stored: Seq<Stored<T>>) -> bool {
    forall|i: int| 0 <= i < stored.len() ==> fits(#[trigger] stored[i])
}

/// The kinds of the entries whose callable may change the receiver.
pub open spec fn receiver_changing_kinds() -> Set<EntryKind> {
    set![EntryKind::MethodMut, EntryKind::MetaMethodMut, EntryKind::FieldSet]
}

/// The kinds of the entries that hold a value of the runtime, which only the runtime can
/// call.
pub open spec fn runtime_kinds() -> Set<EntryKind> {
    set![
        EntryKind::Callback,
        EntryKind::MetaCallback,
        EntryKind::FieldGetterCallback,
        EntryKind::FieldSetterCallback,
    ]
}

/// The kinds of the methods and functions that are called by name.
pub open spec fn named_kinds() -> Set<EntryKind> {
    set![EntryKind::Method, EntryKind::MethodMut, EntryKind::Function, EntryKind::FunctionMut]
}

/// The kinds of the metamethods that typed code can run.
pub open spec fn operator_kinds() -> Set<EntryKind> {
    set![
        EntryKind::MetaMethod,
        EntryKind::MetaMethodMut,
        EntryKind::MetaFunction,
        EntryKind::MetaFunctionMut,
    ]
}

fn keep_method<T, M: Method<T> + 'static>(name: String, kind: EntryKind, method: M) -> (r: Stored<
    T,
>)
    requires
        kind == EntryKind::Method || kind == EntryKind::MetaMethod,
    ensures
        r.name == name,
        r.kind == kind,
        fits(r),
{
    let callable: Box<dyn Method<T>> = Box::new(method);
    Stored { name, kind, callable: Callable::Method(callable) }
}

fn keep_method_mut<T, M: MethodMut<T> + 'static>(name: String, kind: EntryKind, method: M) -> (r:
    Stored<T>)
    requires
        kind == EntryKind::MethodMut || kind == EntryKind::MetaMethodMut,
    ensures
        r.name == name,
        r.kind == kind,
        fits(r),
{
    let callable: Box<dyn MethodMut<T>> = Box::new(method);
    Stored { name, kind, callable: Callable::MethodMut(callable) }
}

fn keep_function<T, F: Function + 'static>(name: String, kind: EntryKind, function: F) -> (r:
    Stored<T>)
    requires
        kind == EntryKind::Function || kind == EntryKind::MetaFunction || kind
            == EntryKind::FieldFunctionGet || kind == EntryKind::MetaField,
    ensures
        r.name == name,
        r.kind == kind,
        fits(r),
{
    let callable: Box<dyn Function> = Box::new(function);
    Stored { name, kind, callable: Callable::Function(callable) }
}

fn keep_function_mut<T, F: FunctionMut + 'static>(name: String, kind: EntryKind, function: F) -> (r:
    Stored<T>)
    requires
        kind == EntryKind::FunctionMut || kind == EntryKind::MetaFunctionMut || kind
            == EntryKind::FieldFunctionSet,
    ensures
        r.name == name,
        r.kind == kind,
        fits(r),
{
    let callable: Box<dyn FunctionMut> = Box::new(function);
    Stored { name, kind, callable: Callable::FunctionMut(callable) }
}

fn keep_getter<T, M: FieldGetter<T> + 'static>(name: String, kind: EntryKind, method: M) -> (r:
    Stored<T>)
    requires
        kind == EntryKind::FieldGet,
    ensures
        r.name == name,
        r.kind == kind,
        fits(r),
{
    let callable: Box<dyn FieldGetter<T>> = Box::new(method);
    Stored { name, kind, callable: Callable::Getter(callable) }
}

fn keep_setter<T, M: FieldSetter<T> + 'static>(name: String, kind: EntryKind, method: M) -> (r:
    Stored<T>)
    requires
        kind == EntryKind::FieldSet,
    ensures
        r.name == name,
        r.kind == kind,
        fits(r),
{
    let callable: Box<dyn FieldSetter<T>> = Box::new(method);
    Stored { name, kind, callable: Callable::Setter(callable) }
}

fn keep_callback<T>(name: String, kind: EntryKind, callback: FunctionRef) -> (r: Stored<T>)
    requires
        kind == EntryKind::Callback || kind == EntryKind::MetaCallback || kind
            == EntryKind::FieldGetterCallback || kind == EntryKind::FieldSetterCallback,
    ensures
        r.name == name,
        r.kind == kind,
        fits(r),
{
    Stored { name, kind, callable: Callable::Callback(callback) }
}

/// The kinds of the entries that are named by a metamethod.
pub open spec fn metamethod_kinds() -> Set<EntryKind> {
    set![
        EntryKind::MetaMethod,
        EntryKind::MetaMethodMut,
        EntryKind::MetaFunction,
        EntryKind::MetaFunctionMut,
        EntryKind::MetaCallback,
        EntryKind::MetaField,
    ]
}

/// Whether the entry at `i` is named by a metamethod that validation rejects.
pub open spec fn is_restricted_entry(entries: Seq<Entry>, i: int) -> bool {
    0 <= i < entries.len() && metamethod_kinds().contains(entries[i].kind) && is_restricted_name(
        entries[i].name,
    )
}

/// What the check of the metamethod names of `entries` gives: the first restricted name is
/// refused, and if there is none the entries are accepted.
pub open spec fn names_checked(entries: Seq<Entry>, r: Result<(), Error>) -> bool {
    if exists|i: int| is_restricted_entry(entries, i) {
        exists|i: int|
            {
                &&& #[trigger] is_restricted_entry(entries, i)
                &&& forall|j: int| 0 <= j < i ==> !is_restricted_entry(entries, j)
                &&& r matches Err(Error::MetaMethodRestricted(name))
                &&& name@ == entries[i].name
            }
    } else {
        r == Ok::<(), Error>(())
    }
}

/// Checks the names of the metamethods among the stored entries.
fn check_names<T>(stored: &Vec<Stored<T>>) -> (r: Result<(), Error>)
    ensures
        names_checked(entries_of(stored@), r),
{
    let mut i: usize = 0;
    while i < stored.len()
        invariant
            i <= stored@.len(),
            forall|j: int| 0 <= j < i ==> !is_restricted_entry(entries_of(stored@), j),
        decreases stored@.len() - i,
    {
        let kind = stored[i].kind;
        let named_by_metamethod = kind == EntryKind::MetaMethod || kind == EntryKind::MetaMethodMut
            || kind == EntryKind::MetaFunction || kind == EntryKind::MetaFunctionMut || kind
            == EntryKind::MetaCallback || kind == EntryKind::MetaField;
        if named_by_metamethod && name_is_restricted(stored[i].name.as_str()) {
            let r = Err(Error::MetaMethodRestricted(stored[i].name.clone()));
            assert(is_restricted_entry(entries_of(stored@), i as int));
            return r;
        }
        i += 1;
    }
    Ok(())
}

/// The entries that a list of stored callables stands for.
spec fn entries_of<T>(stored: Seq<Stored<T>>) -> Seq<Entry> {
    Seq::new(stored.len(), |i: int| Entry { name: stored[i].name@, kind: stored[i].kind })
}

/// Finds the last entry with the given name and one of two kinds.
fn find_last<T>(stored: &Vec<Stored<T>>, name: &str, first: EntryKind, second: EntryKind) -> (r:
    Option<usize>)
    ensures
        last_entry(entries_of(stored@), name@, set![first, second]) == match r {
            Some(i) => Some(i as int),
            None => None::<int>,
        },
        r matches Some(i) ==> i < stored@.len(),
{
    let ghost entries = entries_of(stored@);
    let ghost kinds = set![first, second];
    let mut i: usize = stored.len();
    assert(entries.subrange(0, i as int) =~= entries);
    while i > 0
        invariant
            i <= stored@.len(),
            entries == entries_of(stored@),
            kinds == set![first, second],
            last_entry(entries, name@, kinds) == last_entry(
                entries.subrange(0, i as int),
                name@,
                kinds,
            ),
        decreases i,
    {
        let ghost upto = entries.subrange(0, i as int);
        i -= 1;
        let kind = stored[i].kind;
        proof {
            assert(upto.last() == entries[i as int]);
            assert(upto.drop_last() =~= entries.subrange(0, i as int));
            assert(kinds.contains(kind) == (kind == first || kind == second));
        }
        if (kind == first || kind == second) && str_eq(stored[i].name.as_str(), name) {
            return Some(i);
        }
    }
    None
}

/// The registry of the methods of a type: it keeps every callable it is given, and runs them
/// by name.
///
/// When a name was registered more than once, the last registration is the one that is run.
#[verifier::reject_recursive_types(T)]
pub struct StaticUserDataMethods<T> {
    stored: Vec<Stored<T>>,
    given: Ghost<Map<int, Behaviour<T>>>,
}

/// The registry of the fields of a type: it keeps every accessor it is given, and runs them by
/// name.
///
/// When a name was registered more than once, the last registration is the one that is run.
#[verifier::reject_recursive_types(T)]
pub struct StaticUserDataFields<T> {
    stored: Vec<Stored<T>>,
    given: Ghost<Map<int, Behaviour<T>>>,
}

impl<T> StaticUserDataMethods<T> {
    /// The entries that were registered, in order.
    pub closed spec fn recorded(&self) -> Seq<Entry> {
        entries_of(self.stored@)
    }

    /// What the callable that was given for the entry at `position` does, as it was when it
    /// was given.
    pub closed spec fn given_at(&self, position: int) -> Behaviour<T> {
        if self.given@.contains_key(position) {
            self.given@[position]
        } else {
            Behaviour::Runtime(FunctionRef(0))
        }
    }

    /// Every callable kept is of the sort that the kind of its entry asks for. This holds of a
    /// new registry, and every function of the registry keeps it.
    ///
    /// The registry keeps each callable in a box, and what is known of a callable does not
    /// follow it into the box. So the registry both records what each callable was said to do
    /// when it was given, and says what running the callable kept does; that the two agree is
    /// not stated.
    pub closed spec fn wf(&self) -> bool {
        all_fit(self.stored@)
    }

    /// What running the entry at `position` does: whether it can leave the receiver `this` as
    /// `after` and return `r`.
    ///
    /// A method that reads its receiver leaves the receiver as it is and returns one of the
    /// results that the method kept can give for the receiver and the arguments. A mutable
    /// method changes the receiver and returns as the method kept does. A function leaves the
    /// receiver as it is and returns one of the results that the function kept can give for
    /// the arguments. A value of the runtime cannot be run: the receiver stays as it is and
    /// the result is a `RuntimeError`.
    pub closed spec fn outcome(
        &self,
        position: int,
        this: T,
        args: Vec<Value>,
        after: T,
        r: Result<Vec<Value>, Error>,
    ) -> bool {
        match self.stored@[position].callable {
            Callable::Method(method) => after == this && method.gives(this, args, r),
            Callable::MethodMut(method) => method.does(this, args, after, r),
            Callable::Function(function) => after == this && function.gives(args, r),
            Callable::FunctionMut(function) => after == this && function.does(args, r),
            _ => {
                &&& after == this
                &&& r matches Err(Error::RuntimeError(message))
                &&& message@ == "attempt to call a value of the runtime"@
            },
        }
    }

    /// What the outcome of an entry says by the kind of the entry: only a mutable method
    /// changes the receiver, and a value of the runtime gives a `RuntimeError`.
    pub proof fn lemma_outcome(
        &self,
        position: int,
        this: T,
        args: Vec<Value>,
        after: T,
        r: Result<Vec<Value>, Error>,
    )
        requires
            self.wf(),
            0 <= position < self.recorded().len(),
            self.outcome(position, this, args, after, r),
        ensures
            !receiver_changing_kinds().contains(self.recorded()[position].kind) ==> after == this,
            runtime_kinds().contains(self.recorded()[position].kind) ==> {
                &&& r matches Err(Error::RuntimeError(message))
                &&& message@ == "attempt to call a value of the runtime"@
            },
    {
        assert(fits(self.stored@[position]));
    }

    /// A registry with nothing in it.
    pub fn new() -> (r: StaticUserDataMethods<T>)
        ensures
            r.recorded() == Seq::<Entry>::empty(),
            r.wf(),
    {
        let r = StaticUserDataMethods { stored: Vec::new(), given: Ghost(Map::empty()) };
        assert(r.recorded() =~= Seq::<Entry>::empty());
        r
    }

    /// The number of entries.
    pub fn len(&self) -> (r: usize)
        ensures
            r == self.recorded().len(),
    {
        self.stored.len()
    }

    /// The name of the entry at a position.
    pub fn name_at(&self, position: usize) -> (r: &str)
        requires
            position < self.recorded().len(),
        ensures
            r@ == self.recorded()[position as int].name,
    {
        self.stored[position].name.as_str()
    }

    /// The kind of the entry at a position.
    pub fn kind_at(&self, position: usize) -> (r: EntryKind)
        requires
            position < self.recorded().len(),
        ensures
            r == self.recorded()[position as int].kind,
    {
        self.stored[position].kind
    }

    /// Checks that no entry is named by a protected metamethod, such as `__gc` or
    /// `__metatable`. The first such entry is refused with `MetaMethodRestricted`.
    pub fn validate(&self) -> (r: Result<(), Error>)
        ensures
            names_checked(self.recorded(), r),
    {
        check_names(&self.stored)
    }

    fn keep(&mut self, entry: Stored<T>, Ghost(behaviour): Ghost<Behaviour<T>>)
        requires
            fits(entry),
        ensures
            final(self).recorded() == old(self).recorded().push(
                Entry { name: entry.name@, kind: entry.kind },
            ),
            final(self).given_at(old(self).recorded().len() as int) == behaviour,
            forall|p: int|
                0 <= p < old(self).recorded().len() ==> #[trigger] final(self).given_at(p) == old(self).given_at(p),
            old(self).wf() ==> final(self).wf(),
    {
        let ghost position = self.stored@.len() as int;
        self.given = Ghost(self.given@.insert(position, behaviour));
        self.stored.push(entry);
        assert(self.recorded() =~= old(self).recorded().push(
            Entry { name: entry.name@, kind: entry.kind },
        ));
    }

    /// Runs the entry at `position` on `this`: a method gets `this` as its receiver, a function
    /// gets the arguments only, and a value of the runtime is refused.
    fn run(&mut self, position: usize, this: &mut T, args: &Vec<Value>) -> (r: Result<
        Vec<Value>,
        Error,
    >)
        requires
            position < old(self).recorded().len(),
        ensures
            final(self).recorded() == old(self).recorded(),
            forall|p: int| final(self).given_at(p) == old(self).given_at(p),
            old(self).wf() ==> final(self).wf(),
            old(self).outcome(position as int, *old(this), *args, *final(this), r),
    {
        let r = match &mut self.stored[position].callable {
            Callable::Method(method) => method.call(this, args),
            Callable::MethodMut(method) => method.call_mut(this, args),
            Callable::Function(function) => function.call(args),
            Callable::FunctionMut(function) => function.call_mut(args),
            _ => Err(Error::RuntimeError("attempt to call a value of the runtime".to_owned())),
        };
        proof {
            assert(self.recorded() =~= old(self).recorded());
            if old(self).wf() {
                assert forall|i: int| 0 <= i < self.stored@.len() implies fits(
                    #[trigger] self.stored@[i],
                ) by {
                    assert(fits(old(self).stored@[i]));
                }
            }
        }
        r
    }

    /// Calls the method or function registered under `name` on `this`.
    ///
    /// A method gets `this` as its receiver; a function gets the arguments only. The last
    /// method registered under the name is the one that is run, and the last function if no
    /// method has the name; what the call then does is the outcome of that entry. If nothing
    /// that can be called was registered under the name, the call fails with a `RuntimeError`
    /// and changes nothing. The entries of the registry never change.
    pub fn call(&mut self, name: &str, this: &mut T, args: &Vec<Value>) -> (r: Result<
        Vec<Value>,
        Error,
    >)
        ensures
            final(self).recorded() == old(self).recorded(),
            forall|p: int| final(self).given_at(p) == old(self).given_at(p),
            old(self).wf() ==> final(self).wf(),
            called_by_name(old(self).recorded(), name@) is Some == has_entry(
                old(self).recorded(),
                name@,
                named_kinds(),
            ),
            called_by_name(old(self).recorded(), name@) matches Some(position) ==> old(
                self,
            ).outcome(position, *old(this), *args, *final(this), r),
            !has_entry(old(self).recorded(), name@, named_kinds()) ==> {
                &&& r matches Err(Error::RuntimeError(message))
                &&& message@ == "attempt to call a nil value"@
                &&& *final(this) == *old(this)
            },
    {
        proof {
            assert(named_kinds() =~= set![EntryKind::Method, EntryKind::MethodMut].union(
                set![EntryKind::Function, EntryKind::FunctionMut],
            ));
            lemma_split_kinds(
                self.recorded(),
                name@,
                set![EntryKind::Method, EntryKind::MethodMut],
                set![EntryKind::Function, EntryKind::FunctionMut],
                named_kinds(),
            );
        }
        let found = match find_last(&self.stored, name, EntryKind::Method, EntryKind::MethodMut) {
            Some(i) => Some(i),
            None => find_last(&self.stored, name, EntryKind::Function, EntryKind::FunctionMut),
        };
        match found {
            Some(i) => self.run(i, this, args),
            None => Err(Error::RuntimeError("attempt to call a nil value".to_owned())),
        }
    }

    /// Calls the metamethod registered for `meta` on `this`.
    ///
    /// The last metamethod with a receiver that was registered for the operator is the one
    /// that is run, and the last one without a receiver if there is none with one; what the
    /// call then does is the outcome of that entry. If no metamethod that can be called was
    /// registered for the operator, the call fails with a `RuntimeError` and changes nothing.
    /// The entries of the registry never change.
    pub fn call_meta(&mut self, meta: &MetaMethod, this: &mut T, args: &Vec<Value>) -> (r: Result<
        Vec<Value>,
        Error,
    >)
        ensures
            final(self).recorded() == old(self).recorded(),
            forall|p: int| final(self).given_at(p) == old(self).given_at(p),
            old(self).wf() ==> final(self).wf(),
            called_by_operator(old(self).recorded(), meta@) is Some == has_entry(
                old(self).recorded(),
                meta@,
                operator_kinds(),
            ),
            called_by_operator(old(self).recorded(), meta@) matches Some(position) ==> old(
                self,
            ).outcome(position, *old(this), *args, *final(this), r),
            !has_entry(old(self).recorded(), meta@, operator_kinds()) ==> {
                &&& r matches Err(Error::RuntimeError(message))
                &&& message@ == "attempt to call a nil value"@
                &&& *final(this) == *old(this)
            },
    {
        proof {
            assert(operator_kinds() =~= set![
                EntryKind::MetaMethod,
                EntryKind::MetaMethodMut,
            ].union(set![EntryKind::MetaFunction, EntryKind::MetaFunctionMut]));
            lemma_split_kinds(
                self.recorded(),
                meta@,
                set![EntryKind::MetaMethod, EntryKind::MetaMethodMut],
                set![EntryKind::MetaFunction, EntryKind::MetaFunctionMut],
                operator_kinds(),
            );
        }
        let name = meta.name();
        let found = match find_last(
            &self.stored,
            name,
            EntryKind::MetaMethod,
            EntryKind::MetaMethodMut,
        ) {
            Some(i) => Some(i),
            None => find_last(
                &self.stored,
                name,
                EntryKind::MetaFunction,
                EntryKind::MetaFunctionMut,
            ),
        };
        match found {
            Some(i) => self.run(i, this, args),
            None => Err(Error::RuntimeError("attempt to call a nil value".to_owned())),
        }
    }
}

impl<T> UserDataMethods<T> for StaticUserDataMethods<T> {
    open spec fn entries(&self) -> Seq<Entry> {
        self.recorded()
    }

    open spec fn behaviour(&self, position: int) -> Behaviour<T> {
        self.given_at(position)
    }

    fn add_method<M: Method<T> + 'static>(&mut self, name: &str, method: M)
        ensures
            old(self).wf() ==> final(self).wf(),
    {
        let ghost given = reads_as::<T, M>(method);
        let entry = keep_method(name.to_owned(), EntryKind::Method, method);
        self.keep(entry, Ghost(given));
    }

    fn add_method_mut<M: MethodMut<T> + 'static>(&mut self, name: &str, method: M)
        ensures
            old(self).wf() ==> final(self).wf(),
    {
        let ghost given = changes_as::<T, M>(method);
        let entry = keep_method_mut(name.to_owned(), EntryKind::MethodMut, method);
        self.keep(entry, Ghost(given));
    }

    fn add_function<F: Function + 'static>(&mut self, name: &str, function: F)
        ensures
            old(self).wf() ==> final(self).wf(),
    {
        let ghost given = calls_as::<T, F>(function);
        let entry = keep_function(name.to_owned(), EntryKind::Function, function);
        self.keep(entry, Ghost(given));
    }

    fn add_function_mut<F: FunctionMut + 'static>(&mut self, name: &str, function: F)
        ensures
            old(self).wf() ==> final(self).wf(),
    {
        let ghost given = calls_mut_as::<T, F>(function);
        let entry = keep_function_mut(name.to_owned(), EntryKind::FunctionMut, function);
        self.keep(entry, Ghost(given));
    }

    fn add_meta_method<M: Method<T> + 'static>(&mut self, meta: MetaMethod, method: M)
        ensures
            old(self).wf() ==> final(self).wf(),
    {
        let ghost given = reads_as::<T, M>(method);
        let entry = keep_method(meta.name().to_owned(), EntryKind::MetaMethod, method);
        self.keep(entry, Ghost(given));
    }

    fn add_meta_method_mut<M: MethodMut<T> + 'static>(&mut self, meta: MetaMethod, method: M)
        ensures
            old(self).wf() ==> final(self).wf(),
    {
        let ghost given = changes_as::<T, M>(method);
        let entry = keep_method_mut(meta.name().to_owned(), EntryKind::MetaMethodMut, method);
        self.keep(entry, Ghost(given));
    }

    fn add_meta_function<F: Function + 'static>(&mut self, meta: MetaMethod, function: F)
        ensures
            old(self).wf() ==> final(self).wf(),
    {
        let ghost given = calls_as::<T, F>(function);
        let entry = keep_function(meta.name().to_owned(), EntryKind::MetaFunction, function);
        self.keep(entry, Ghost(given));
    }

    fn add_meta_function_mut<F: FunctionMut + 'static>(&mut self, meta: MetaMethod, function: F)
        ensures
            old(self).wf() ==> final(self).wf(),
    {
        let ghost given = calls_mut_as::<T, F>(function);
        let entry = keep_function_mut(meta.name().to_owned(), EntryKind::MetaFunctionMut, function);
        self.keep(entry, Ghost(given));
    }

    fn add_callback(&mut self, name: &str, callback: FunctionRef)
        ensures
            old(self).wf() ==> final(self).wf(),
    {
        let ghost given = Behaviour::Runtime(callback);
        let entry = keep_callback(name.to_owned(), EntryKind::Callback, callback);
        self.keep(entry, Ghost(given));
    }

    fn add_meta_callback(&mut self, meta: MetaMethod, callback: FunctionRef)
        ensures
            old(self).wf() ==> final(self).wf(),
    {
        let ghost given = Behaviour::Runtime(callback);
        let entry = keep_callback(meta.name().to_owned(), EntryKind::MetaCallback, callback);
        self.keep(entry, Ghost(given));
    }
}

impl<T> StaticUserDataFields<T> {
    /// The entries that were registered, in order.
    pub closed spec fn recorded(&self) -> Seq<Entry> {
        entries_of(self.stored@)
    }

    /// What the callable that was given for the entry at `position` does, as it was when it
    /// was given.
    pub closed spec fn given_at(&self, position: int) -> Behaviour<T> {
        if self.given@.contains_key(position) {
            self.given@[position]
        } else {
            Behaviour::Runtime(FunctionRef(0))
        }
    }

    /// Every accessor kept is of the sort that the kind of its entry asks for. This holds of a
    /// new registry, and every function of the registry keeps it.
    pub closed spec fn wf(&self) -> bool {
        all_fit(self.stored@)
    }

    /// What reading through the entry at `position` gives: whether it can return `r` for the
    /// receiver `this`. A getter returns one of the results that the getter itself can give
    /// for the receiver; an entry that holds no getter reads as `Nil`.
    pub closed spec fn reads(&self, position: int, this: T, r: Result<Value, Error>) -> bool {
        match self.stored@[position].callable {
            Callable::Getter(getter) => getter.gives(this, r),
            _ => r == Ok::<Value, Error>(Value::Nil),
        }
    }

    /// What writing through the entry at `position` does: whether it can turn the receiver
    /// `this` into `after` and return `r` when it is given `value`. A setter changes the
    /// receiver and returns as the setter kept does; an entry that holds no setter leaves the
    /// receiver as it is and returns `Ok`.
    pub closed spec fn writes(
        &self,
        position: int,
        this: T,
        value: Value,
        after: T,
        r: Result<(), Error>,
    ) -> bool {
        match self.stored@[position].callable {
            Callable::Setter(setter) => setter.does(this, value, after, r),
            _ => after == this && r == Ok::<(), Error>(()),
        }
    }

    /// A registry with nothing in it.
    pub fn new() -> (r: StaticUserDataFields<T>)
        ensures
            r.recorded() == Seq::<Entry>::empty(),
            r.wf(),
    {
        let r = StaticUserDataFields { stored: Vec::new(), given: Ghost(Map::empty()) };
        assert(r.recorded() =~= Seq::<Entry>::empty());
        r
    }

    /// The number of entries.
    pub fn len(&self) -> (r: usize)
        ensures
            r == self.recorded().len(),
    {
        self.stored.len()
    }

    /// The name of the entry at a position.
    pub fn name_at(&self, position: usize) -> (r: &str)
        requires
            position < self.recorded().len(),
        ensures
            r@ == self.recorded()[position as int].name,
    {
        self.stored[position].name.as_str()
    }

    /// The kind of the entry at a position.
    pub fn kind_at(&self, position: usize) -> (r: EntryKind)
        requires
            position < self.recorded().len(),
        ensures
            r == self.recorded()[position as int].kind,
    {
        self.stored[position].kind
    }

    /// Checks that no entry is named by a protected metamethod, such as `__gc` or
    /// `__metatable`. The first such entry is refused with `MetaMethodRestricted`.
    pub fn validate(&self) -> (r: Result<(), Error>)
        ensures
            names_checked(self.recorded(), r),
    {
        check_names(&self.stored)
    }

    fn keep(&mut self, entry: Stored<T>, Ghost(behaviour): Ghost<Behaviour<T>>)
        requires
            fits(entry),
        ensures
            final(self).recorded() == old(self).recorded().push(
                Entry { name: entry.name@, kind: entry.kind },
            ),
            final(self).given_at(old(self).recorded().len() as int) == behaviour,
            forall|p: int|
                0 <= p < old(self).recorded().len() ==> #[trigger] final(self).given_at(p) == old(self).given_at(p),
            old(self).wf() ==> final(self).wf(),
    {
        let ghost position = self.stored@.len() as int;
        self.given = Ghost(self.given@.insert(position, behaviour));
        self.stored.push(entry);
        assert(self.recorded() =~= old(self).recorded().push(
            Entry { name: entry.name@, kind: entry.kind },
        ));
    }

    /// Reads the field `name` of `this` with the getter registered for it.
    ///
    /// The last getter method registered under the name is the one that is run, and the result
    /// is what that getter gives for `this`. A field for which no getter method was registered
    /// reads as `Nil`.
    pub fn get(&self, name: &str, this: &T) -> (r: Result<Value, Error>)
        ensures
            last_entry(self.recorded(), name@, set![EntryKind::FieldGet]) is Some == has_entry(
                self.recorded(),
                name@,
                set![EntryKind::FieldGet],
            ),
            last_entry(self.recorded(), name@, set![EntryKind::FieldGet]) matches Some(position)
                ==> self.reads(position, *this, r),
            !has_entry(self.recorded(), name@, set![EntryKind::FieldGet]) ==> r == Ok::<
                Value,
                Error,
            >(Value::Nil),
    {
        proof {
            assert(set![EntryKind::FieldGet, EntryKind::FieldGet] =~= set![EntryKind::FieldGet]);
            lemma_last_entry(self.recorded(), name@, set![EntryKind::FieldGet]);
        }
        match find_last(&self.stored, name, EntryKind::FieldGet, EntryKind::FieldGet) {
            Some(i) => match &self.stored[i].callable {
                Callable::Getter(getter) => getter.get(this),
                _ => Ok(Value::Nil),
            },
            None => Ok(Value::Nil),
        }
    }

    /// Writes the field `name` of `this` with the setter registered for it.
    ///
    /// The last setter method registered under the name is the one that is run, and what the
    /// call does is what that setter does with `this` and the value. If no setter method was
    /// registered for the field, the call fails with a `RuntimeError` and changes nothing. The
    /// entries of the registry never change.
    pub fn set(&mut self, name: &str, this: &mut T, value: Value) -> (r: Result<(), Error>)
        ensures
            final(self).recorded() == old(self).recorded(),
            forall|p: int| final(self).given_at(p) == old(self).given_at(p),
            old(self).wf() ==> final(self).wf(),
            last_entry(old(self).recorded(), name@, set![EntryKind::FieldSet]) is Some
                == has_entry(old(self).recorded(), name@, set![EntryKind::FieldSet]),
            last_entry(old(self).recorded(), name@, set![EntryKind::FieldSet]) matches Some(
                position,
            ) ==> old(self).writes(position, *old(this), value, *final(this), r),
            !has_entry(old(self).recorded(), name@, set![EntryKind::FieldSet]) ==> {
                &&& r matches Err(Error::RuntimeError(message))
                &&& message@ == "attempt to set an unknown field"@
                &&& *final(this) == *old(this)
            },
    {
        proof {
            assert(set![EntryKind::FieldSet, EntryKind::FieldSet] =~= set![EntryKind::FieldSet]);
            lemma_last_entry(self.recorded(), name@, set![EntryKind::FieldSet]);
        }
        match find_last(&self.stored, name, EntryKind::FieldSet, EntryKind::FieldSet) {
            Some(i) => {
                let r = match &mut self.stored[i].callable {
                    Callable::Setter(setter) => setter.set(this, value),
                    _ => Ok(()),
                };
                proof {
                    assert(self.recorded() =~= old(self).recorded());
                    if old(self).wf() {
                        assert forall|k: int| 0 <= k < self.stored@.len() implies fits(
                            #[trigger] self.stored@[k],
                        ) by {
                            assert(fits(old(self).stored@[k]));
                        }
                    }
                }
                r
            },
            None => Err(Error::RuntimeError("attempt to set an unknown field".to_owned())),
        }
    }
}

impl<T> UserDataFields<T> for StaticUserDataFields<T> {
    open spec fn entries(&self) -> Seq<Entry> {
        self.recorded()
    }

    open spec fn behaviour(&self, position: int) -> Behaviour<T> {
        self.given_at(position)
    }

    fn add_field_method_get<M: FieldGetter<T> + 'static>(&mut self, name: &str, method: M)
        ensures
            old(self).wf() ==> final(self).wf(),
    {
        let ghost given = gets_as::<T, M>(method);
        let entry = keep_getter(name.to_owned(), EntryKind::FieldGet, method);
        self.keep(entry, Ghost(given));
    }

    fn add_field_method_set<M: FieldSetter<T> + 'static>(&mut self, name: &str, method: M)
        ensures
            old(self).wf() ==> final(self).wf(),
    {
        let ghost given = sets_as::<T, M>(method);
        let entry = keep_setter(name.to_owned(), EntryKind::FieldSet, method);
        self.keep(entry, Ghost(given));
    }

    fn add_field_function_get<F: Function + 'static>(&mut self, name: &str, function: F)
        ensures
            old(self).wf() ==> final(self).wf(),
    {
        let ghost given = calls_as::<T, F>(function);
        let entry = keep_function(name.to_owned(), EntryKind::FieldFunctionGet, function);
        self.keep(entry, Ghost(given));
    }

    fn add_field_function_set<F: FunctionMut + 'static>(&mut self, name: &str, function: F)
        ensures
            old(self).wf() ==> final(self).wf(),
    {
        let ghost given = calls_mut_as::<T, F>(function);
        let entry = keep_function_mut(name.to_owned(), EntryKind::FieldFunctionSet, function);
        self.keep(entry, Ghost(given));
    }

    fn add_meta_field_with<F: Function + 'static>(&mut self, meta: MetaMethod, f: F)
        ensures
            old(self).wf() ==> final(self).wf(),
    {
        let ghost given = calls_as::<T, F>(f);
        let entry = keep_function(meta.name().to_owned(), EntryKind::MetaField, f);
        self.keep(entry, Ghost(given));
    }

    fn add_field_getter(&mut self, name: &str, callback: FunctionRef)
        ensures
            old(self).wf() ==> final(self).wf(),
    {
        let ghost given = Behaviour::Runtime(callback);
        let entry = keep_callback(name.to_owned(), EntryKind::FieldGetterCallback, callback);
        self.keep(entry, Ghost(given));
    }

    fn add_field_setter(&mut self, name: &str, callback: FunctionRef)
        ensures
            old(self).wf() ==> final(self).wf(),
    {
        let ghost given = Behaviour::Runtime(callback);
        let entry = keep_callback(name.to_owned(), EntryKind::FieldSetterCallback, callback);
        self.keep(entry, Ghost(given));
    }
}

} // verus!
