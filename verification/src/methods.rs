use vstd::prelude::*;
use vstd::string::*;
use crate::error::Error;
use crate::metamethod::MetaMethod;
use crate::types::{Type, TypeTable};
use crate::value::{FunctionRef, Value};

verus! {

/// A callable that reads its receiver: what is registered with
/// [`add_method`](UserDataMethods::add_method).
pub trait Method<T> {
    /// Whether the callable can return `r` for the receiver and the arguments. An
    /// implementation that says nothing of itself can return anything.
    open spec fn gives(&self, this: T, args: Vec<Value>, r: Result<Vec<Value>, Error>) -> bool {
        true
    }

    /// Runs the callable on the receiver and the arguments.
    fn call(&self, this: &T, args: &Vec<Value>) -> (r: Result<Vec<Value>, Error>)
        ensures
            self.gives(*this, *args, r),
    ;
}

/// A callable that may change its receiver: what is registered with
/// [`add_method_mut`](UserDataMethods::add_method_mut).
pub trait MethodMut<T> {
    /// Whether the callable can turn the receiver `before` into `after` and return `r` for the
    /// arguments. An implementation that says nothing of itself can do anything.
    open spec fn does(&self, before: T, args: Vec<Value>, after: T, r: Result<Vec<Value>, Error>) -> bool {
        true
    }

    /// Runs the callable on the receiver and the arguments.
    fn call_mut(&mut self, this: &mut T, args: &Vec<Value>) -> (r: Result<Vec<Value>, Error>)
        ensures
            old(self).does(*old(this), *args, *final(this), r),
    ;
}

/// A callable without an implicit receiver: the receiver, if any, is the first argument.
pub trait Function {
    /// Whether the callable can return `r` for the arguments.
    open spec fn gives(&self, args: Vec<Value>, r: Result<Vec<Value>, Error>) -> bool {
        true
    }

    /// Runs the callable on the arguments.
    fn call(&self, args: &Vec<Value>) -> (r: Result<Vec<Value>, Error>)
        ensures
            self.gives(*args, r),
    ;
}

/// A callable without an implicit receiver that may change its own state.
pub trait FunctionMut {
    /// Whether the callable, in the state it is in, can return `r` for the arguments.
    open spec fn does(&self, args: Vec<Value>, r: Result<Vec<Value>, Error>) -> bool {
        true
    }

    /// Runs the callable on the arguments.
    fn call_mut(&mut self, args: &Vec<Value>) -> (r: Result<Vec<Value>, Error>)
        ensures
            old(self).does(*args, r),
    ;
}

/// A field accessor that reads the field from its receiver.
pub trait FieldGetter<T> {
    /// Whether the getter can return `r` for the receiver.
    open spec fn gives(&self, this: T, r: Result<Value, Error>) -> bool {
        true
    }

    /// Reads the field.
    fn get(&self, this: &T) -> (r: Result<Value, Error>)
        ensures
            self.gives(*this, r),
    ;
}

/// A field accessor that writes the field of its receiver.
pub trait FieldSetter<T> {
    /// Whether the setter can turn the receiver `before` into `after` and return `r` when it
    /// is given `value`.
    open spec fn does(&self, before: T, value: Value, after: T, r: Result<(), Error>) -> bool {
        true
    }

    /// Writes the field.
    fn set(&mut self, this: &mut T, value: Value) -> (r: Result<(), Error>)
        ensures
            old(self).does(*old(this), value, *final(this), r),
    ;
}

/// What a registered callable does, as the registry that received it knows it.
#[verifier::reject_recursive_types(T)]
pub ghost enum Behaviour<T> {
    /// A callable that reads its receiver: which results it can return for a receiver and
    /// arguments.
    Reads(spec_fn(T, Vec<Value>, Result<Vec<Value>, Error>) -> bool),
    /// A callable that may change its receiver: how it can change a receiver and which
    /// results it can return.
    Changes(spec_fn(T, Vec<Value>, T, Result<Vec<Value>, Error>) -> bool),
    /// A callable without a receiver: which results it can return for arguments.
    Calls(spec_fn(Vec<Value>, Result<Vec<Value>, Error>) -> bool),
    /// A field getter: which results it can return for a receiver.
    Gets(spec_fn(T, Result<Value, Error>) -> bool),
    /// A field setter: how it can change a receiver for a value, and which results it can
    /// return.
    Sets(spec_fn(T, Value, T, Result<(), Error>) -> bool),
    /// A value of the runtime, which only the runtime can call.
    Runtime(FunctionRef),
}

impl<T> Behaviour<T> {
    /// Whether calling the callable on `this` with `args` can leave the receiver as `after`
    /// and return `r`. Only a callable that may change its receiver changes it; what is not
    /// a method or function cannot be called and gives a `RuntimeError`.
    pub open spec fn runs(
        self,
        this: T,
        args: Vec<Value>,
        after: T,
        r: Result<Vec<Value>, Error>,
    ) -> bool {
        match self {
            Behaviour::Reads(gives) => after == this && gives(this, args, r),
            Behaviour::Changes(does) => does(this, args, after, r),
            Behaviour::Calls(gives) => after == this && gives(args, r),
            _ => {
                &&& after == this
                &&& r matches Err(Error::RuntimeError(message))
                &&& message@ == "attempt to call a value of the runtime"@
            },
        }
    }
}

/// What a method that reads its receiver does.
pub open spec fn reads_as<T, M: Method<T>>(method: M) -> Behaviour<T> {
    Behaviour::Reads(
        |this: T, args: Vec<Value>, r: Result<Vec<Value>, Error>| method.gives(this, args, r),
    )
}

/// What a method that may change its receiver does, in the state it is in.
pub open spec fn changes_as<T, M: MethodMut<T>>(method: M) -> Behaviour<T> {
    Behaviour::Changes(
        |before: T, args: Vec<Value>, after: T, r: Result<Vec<Value>, Error>|
            method.does(before, args, after, r),
    )
}

/// What a function without a receiver does.
pub open spec fn calls_as<T, F: Function>(function: F) -> Behaviour<T> {
    Behaviour::Calls(|args: Vec<Value>, r: Result<Vec<Value>, Error>| function.gives(args, r))
}

/// What a mutable function without a receiver does, in the state it is in.
pub open spec fn calls_mut_as<T, F: FunctionMut>(function: F) -> Behaviour<T> {
    Behaviour::Calls(|args: Vec<Value>, r: Result<Vec<Value>, Error>| function.does(args, r))
}

/// What a field getter does.
pub open spec fn gets_as<T, M: FieldGetter<T>>(method: M) -> Behaviour<T> {
    Behaviour::Gets(|this: T, r: Result<Value, Error>| method.gives(this, r))
}

/// What a field setter does, in the state it is in.
pub open spec fn sets_as<T, M: FieldSetter<T>>(method: M) -> Behaviour<T> {
    Behaviour::Sets(
        |before: T, value: Value, after: T, r: Result<(), Error>|
            method.does(before, value, after, r),
    )
}

/// The kinds of entries in the surface of a type.
#[derive(Clone, Copy, Debug, PartialEq, Eq, Structural)]
pub enum EntryKind {
    /// A method that reads its receiver.
    Method,
    /// A method that may change its receiver.
    MethodMut,
    /// A function without an implicit receiver.
    Function,
    /// A function without an implicit receiver that may change its own state.
    FunctionMut,
    /// A metamethod that reads its receiver.
    MetaMethod,
    /// A metamethod that may change its receiver.
    MetaMethodMut,
    /// A metamethod without an implicit receiver.
    MetaFunction,
    /// A metamethod without an implicit receiver that may change its own state.
    MetaFunctionMut,
    /// A callable that the runtime has already made.
    Callback,
    /// A metamethod that the runtime has already made.
    MetaCallback,
    /// A field getter that reads its receiver.
    FieldGet,
    /// A field setter that changes its receiver.
    FieldSet,
    /// A field getter that is handed the userdata.
    FieldFunctionGet,
    /// A field setter that is handed the userdata.
    FieldFunctionSet,
    /// A metatable field whose value is computed when the type is registered.
    MetaField,
    /// A field getter that the runtime has already made.
    FieldGetterCallback,
    /// A field setter that the runtime has already made.
    FieldSetterCallback,
}

/// One entry of the surface of a type: what was registered, and under which name.
pub ghost struct Entry {
    /// The name of the entry; for a metamethod, the name of the metamethod.
    pub name: Seq<char>,
    /// What kind of entry it is.
    pub kind: EntryKind,
}

/// Method registry for [`UserData`] implementors.
///
/// A registry records what it is given, in the order in which it is given.
pub trait UserDataMethods<T>: Sized {
    /// The entries recorded so far.
    spec fn entries(&self) -> Seq<Entry>;

    /// What the callable that was given for the entry at `position` does.
    spec fn behaviour(&self, position: int) -> Behaviour<T>;

    /// Adds a regular method which accepts a `&T` as the first parameter.
    fn add_method<M: Method<T> + 'static>(&mut self, name: &str, method: M)
        ensures
            final(self).entries() == old(self).entries().push(
                Entry { name: name@, kind: EntryKind::Method },
            ),
            final(self).behaviour(old(self).entries().len() as int) == reads_as::<T, M>(method),
            forall|p: int|
                0 <= p < old(self).entries().len() ==> #[trigger] final(self).behaviour(p) == old(self).behaviour(p),
    ;

    /// Adds a regular method which accepts a `&mut T` as the first parameter.
    fn add_method_mut<M: MethodMut<T> + 'static>(&mut self, name: &str, method: M)
        ensures
            final(self).entries() == old(self).entries().push(
                Entry { name: name@, kind: EntryKind::MethodMut },
            ),
            final(self).behaviour(old(self).entries().len() as int) == changes_as::<T, M>(method),
            forall|p: int|
                0 <= p < old(self).entries().len() ==> #[trigger] final(self).behaviour(p) == old(self).behaviour(p),
    ;

    /// Adds a regular method as a function which accepts generic arguments: the userdata is
    /// the first argument if the function is called with method syntax.
    fn add_function<F: Function + 'static>(&mut self, name: &str, function: F)
        ensures
            final(self).entries() == old(self).entries().push(
                Entry { name: name@, kind: EntryKind::Function },
            ),
            final(self).behaviour(old(self).entries().len() as int) == calls_as::<T, F>(function),
            forall|p: int|
                0 <= p < old(self).entries().len() ==> #[trigger] final(self).behaviour(p) == old(self).behaviour(p),
    ;

    /// Adds a regular method as a mutable function which accepts generic arguments.
    fn add_function_mut<F: FunctionMut + 'static>(&mut self, name: &str, function: F)
        ensures
            final(self).entries() == old(self).entries().push(
                Entry { name: name@, kind: EntryKind::FunctionMut },
            ),
            final(self).behaviour(old(self).entries().len() as int) == calls_mut_as::<T, F>(function),
            forall|p: int|
                0 <= p < old(self).entries().len() ==> #[trigger] final(self).behaviour(p) == old(self).behaviour(p),
    ;

    /// Adds a metamethod which accepts a `&T` as the first parameter.
    fn add_meta_method<M: Method<T> + 'static>(&mut self, meta: MetaMethod, method: M)
        ensures
            final(self).entries() == old(self).entries().push(
                Entry { name: meta@, kind: EntryKind::MetaMethod },
            ),
            final(self).behaviour(old(self).entries().len() as int) == reads_as::<T, M>(method),
            forall|p: int|
                0 <= p < old(self).entries().len() ==> #[trigger] final(self).behaviour(p) == old(self).behaviour(p),
    ;

    /// Adds a metamethod which accepts a `&mut T` as the first parameter.
    fn add_meta_method_mut<M: MethodMut<T> + 'static>(&mut self, meta: MetaMethod, method: M)
        ensures
            final(self).entries() == old(self).entries().push(
                Entry { name: meta@, kind: EntryKind::MetaMethodMut },
            ),
            final(self).behaviour(old(self).entries().len() as int) == changes_as::<T, M>(method),
            forall|p: int|
                0 <= p < old(self).entries().len() ==> #[trigger] final(self).behaviour(p) == old(self).behaviour(p),
    ;

    /// Adds a metamethod which accepts generic arguments.
    fn add_meta_function<F: Function + 'static>(&mut self, meta: MetaMethod, function: F)
        ensures
            final(self).entries() == old(self).entries().push(
                Entry { name: meta@, kind: EntryKind::MetaFunction },
            ),
            final(self).behaviour(old(self).entries().len() as int) == calls_as::<T, F>(function),
            forall|p: int|
                0 <= p < old(self).entries().len() ==> #[trigger] final(self).behaviour(p) == old(self).behaviour(p),
    ;

    /// Adds a metamethod as a mutable function which accepts generic arguments.
    fn add_meta_function_mut<F: FunctionMut + 'static>(&mut self, meta: MetaMethod, function: F)
        ensures
            final(self).entries() == old(self).entries().push(
                Entry { name: meta@, kind: EntryKind::MetaFunctionMut },
            ),
            final(self).behaviour(old(self).entries().len() as int) == calls_mut_as::<T, F>(function),
            forall|p: int|
                0 <= p < old(self).entries().len() ==> #[trigger] final(self).behaviour(p) == old(self).behaviour(p),
    ;

    /// Adds a callable that the runtime has already made.
    fn add_callback(&mut self, name: &str, callback: FunctionRef)
        ensures
            final(self).entries() == old(self).entries().push(
                Entry { name: name@, kind: EntryKind::Callback },
            ),
            final(self).behaviour(old(self).entries().len() as int) == Behaviour::<T>::Runtime(callback),
            forall|p: int|
                0 <= p < old(self).entries().len() ==> #[trigger] final(self).behaviour(p) == old(self).behaviour(p),
    ;

    /// Adds a metamethod that the runtime has already made.
    fn add_meta_callback(&mut self, meta: MetaMethod, callback: FunctionRef)
        ensures
            final(self).entries() == old(self).entries().push(
                Entry { name: meta@, kind: EntryKind::MetaCallback },
            ),
            final(self).behaviour(old(self).entries().len() as int) == Behaviour::<T>::Runtime(callback),
            forall|p: int|
                0 <= p < old(self).entries().len() ==> #[trigger] final(self).behaviour(p) == old(self).behaviour(p),
    ;
}

/// Field registry for [`UserData`] implementors.
///
/// A registry records what it is given, in the order in which it is given.
pub trait UserDataFields<T>: Sized {
    /// The entries recorded so far.
    spec fn entries(&self) -> Seq<Entry>;

    /// What the callable that was given for the entry at `position` does.
    spec fn behaviour(&self, position: int) -> Behaviour<T>;

    /// Adds a regular field getter as a method which accepts a `&T` as the parameter.
    fn add_field_method_get<M: FieldGetter<T> + 'static>(&mut self, name: &str, method: M)
        ensures
            final(self).entries() == old(self).entries().push(
                Entry { name: name@, kind: EntryKind::FieldGet },
            ),
            final(self).behaviour(old(self).entries().len() as int) == gets_as::<T, M>(method),
            forall|p: int|
                0 <= p < old(self).entries().len() ==> #[trigger] final(self).behaviour(p) == old(self).behaviour(p),
    ;

    /// Adds a regular field setter as a method which accepts a `&mut T` as the first
    /// parameter.
    fn add_field_method_set<M: FieldSetter<T> + 'static>(&mut self, name: &str, method: M)
        ensures
            final(self).entries() == old(self).entries().push(
                Entry { name: name@, kind: EntryKind::FieldSet },
            ),
            final(self).behaviour(old(self).entries().len() as int) == sets_as::<T, M>(method),
            forall|p: int|
                0 <= p < old(self).entries().len() ==> #[trigger] final(self).behaviour(p) == old(self).behaviour(p),
    ;

    /// Adds a regular field getter as a function which is handed the userdata as its
    /// argument.
    fn add_field_function_get<F: Function + 'static>(&mut self, name: &str, function: F)
        ensures
            final(self).entries() == old(self).entries().push(
                Entry { name: name@, kind: EntryKind::FieldFunctionGet },
            ),
            final(self).behaviour(old(self).entries().len() as int) == calls_as::<T, F>(function),
            forall|p: int|
                0 <= p < old(self).entries().len() ==> #[trigger] final(self).behaviour(p) == old(self).behaviour(p),
    ;

    /// Adds a regular field setter as a function which is handed the userdata as its first
    /// argument.
    fn add_field_function_set<F: FunctionMut + 'static>(&mut self, name: &str, function: F)
        ensures
            final(self).entries() == old(self).entries().push(
                Entry { name: name@, kind: EntryKind::FieldFunctionSet },
            ),
            final(self).behaviour(old(self).entries().len() as int) == calls_mut_as::<T, F>(function),
            forall|p: int|
                0 <= p < old(self).entries().len() ==> #[trigger] final(self).behaviour(p) == old(self).behaviour(p),
    ;

    /// Adds a metatable field whose value `f` computes when the type is registered.
    fn add_meta_field_with<F: Function + 'static>(&mut self, meta: MetaMethod, f: F)
        ensures
            final(self).entries() == old(self).entries().push(
                Entry { name: meta@, kind: EntryKind::MetaField },
            ),
            final(self).behaviour(old(self).entries().len() as int) == calls_as::<T, F>(f),
            forall|p: int|
                0 <= p < old(self).entries().len() ==> #[trigger] final(self).behaviour(p) == old(self).behaviour(p),
    ;

    /// Adds a field getter that the runtime has already made.
    fn add_field_getter(&mut self, name: &str, callback: FunctionRef)
        ensures
            final(self).entries() == old(self).entries().push(
                Entry { name: name@, kind: EntryKind::FieldGetterCallback },
            ),
            final(self).behaviour(old(self).entries().len() as int) == Behaviour::<T>::Runtime(callback),
            forall|p: int|
                0 <= p < old(self).entries().len() ==> #[trigger] final(self).behaviour(p) == old(self).behaviour(p),
    ;

    /// Adds a field setter that the runtime has already made.
    fn add_field_setter(&mut self, name: &str, callback: FunctionRef)
        ensures
            final(self).entries() == old(self).entries().push(
                Entry { name: name@, kind: EntryKind::FieldSetterCallback },
            ),
            final(self).behaviour(old(self).entries().len() as int) == Behaviour::<T>::Runtime(callback),
            forall|p: int|
                0 <= p < old(self).entries().len() ==> #[trigger] final(self).behaviour(p) == old(self).behaviour(p),
    ;
}

/// Trait for custom userdata types.
///
/// By implementing this trait, a host type becomes eligible for use inside the runtime. A type
/// registers its surface by adding to the registry it is handed and handing the registry
/// back. A type may also say, by name and kind, which surface it registers; a wrapper that
/// re-exposes the type then registers the same surface.
pub trait UserData: Sized {
    /// Whether the type says which surface it registers. A type that does says so for its
    /// fields and for its methods, and then registers exactly what it says.
    open spec fn names_surface() -> bool {
        false
    }

    /// The fields that the type registers, by name and kind, in the order of registration.
    open spec fn fields_surface() -> Seq<Entry> {
        Seq::empty()
    }

    /// The methods and operators that the type registers, by name and kind, in the order of
    /// registration.
    open spec fn methods_surface() -> Seq<Entry> {
        Seq::empty()
    }

    /// Adds custom fields specific to this userdata to the registry, and hands the registry
    /// back.
    fn add_fields<F: UserDataFields<Self>>(fields: F) -> (r: F)
        ensures
            Self::names_surface() ==> r.entries() == fields.entries() + Self::fields_surface(),
    ;

    /// Adds custom methods and operators specific to this userdata to the registry, and hands
    /// the registry back.
    fn add_methods<M: UserDataMethods<Self>>(methods: M) -> (r: M)
        ensures
            Self::names_surface() ==> r.entries() == methods.entries() + Self::methods_surface(),
    ;

    /// Hook to perform static initialization when the metatable for this userdata is created.
    /// Called before `add_fields` and `add_methods`, this is where a type declares its
    /// capabilities.
    fn on_metatable_init(table: &mut TypeTable) {
    }

    /// Adds custom fields to the object that stands for the type itself.
    fn add_type_fields<F: UserDataFields<Type<Self>>>(fields: F) -> (r: F) {
        fields
    }

    /// Adds custom methods and operators to the object that stands for the type itself.
    fn add_type_methods<M: UserDataMethods<Type<Self>>>(methods: M) -> (r: M) {
        methods
    }

    /// Hook to perform static initialization when the metatable for the object that stands for
    /// the type is created. Called before `add_type_fields` and `add_type_methods`.
    fn on_type_metatable_init(table: &mut TypeTable) {
    }

    /// Allows a type to add extra ways of conversion from runtime values to itself. The
    /// default refuses every value, with the error that [`conversion_error`] makes.
    fn from_lua_fallback(lua_value: Value) -> Result<Self, Error> {
        Err(conversion_error(lua_value))
    }
}

/// The error for a runtime value that is not a userdata of the type asked for: a type
/// mismatch for a userdata, and for every other value a conversion error that names the type
/// of the value.
pub fn conversion_error(lua_value: Value) -> (e: Error)
    ensures
        lua_value is UserData ==> e == Error::UserDataTypeMismatch,
        !(lua_value is UserData) ==> {
            &&& e matches Error::FromLuaConversionError { from, to, message }
            &&& from@ == lua_value.kind_name_spec()
            &&& to@ == "userdata"@
            &&& message is None
        },
{
    match lua_value {
        Value::UserData(_) => Error::UserDataTypeMismatch,
        x => Error::FromLuaConversionError { from: x.kind_name(), to: "userdata", message: None },
    }
}

} // verus!
