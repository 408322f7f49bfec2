use vstd::prelude::*;
use std::marker::PhantomData;
use crate::error::Error;
use crate::metamethod::MetaMethod;
use crate::methods::{
    calls_as,
    calls_mut_as,
    changes_as,
    gets_as,
    reads_as,
    sets_as,
    Behaviour,
    Entry,
    EntryKind,
    FieldGetter,
    FieldSetter,
    Function,
    FunctionMut,
    Method,
    MethodMut,
    UserDataFields,
    UserDataMethods,
};
use crate::value::{FunctionRef, Value};

verus! {

/// A wrapper that can hand out a shared guard on the value it wraps, without ever waiting.
pub trait NonBlockingGuardedBorrow<U>: Sized {
    /// Whether a shared guard can be had now.
    spec fn readable(&self) -> bool;

    /// The value that the wrapper guards.
    spec fn target(&self) -> U;

    /// Tries to get a shared guard. The guard lasts as long as the reference that is returned.
    fn try_nonblocking_guarded_borrow(&self) -> (r: Option<&U>)
        ensures
            r.is_some() == self.readable(),
            r matches Some(u) ==> *u == self.target(),
    ;
}

/// A wrapper that can hand out the exclusive guard on the value it wraps, without ever
/// waiting.
///
/// The guard is taken, used and given back in three steps, and the wrapper counts the guards
/// that it handed out and that it got back.
pub trait NonBlockingGuardedMutBorrowMut<U>: NonBlockingGuardedBorrow<U> {
    /// Whether the exclusive guard can be had now.
    spec fn writable(&self) -> bool;

    /// Whether the exclusive guard is outstanding.
    spec fn held(&self) -> bool;

    /// How many exclusive guards were handed out.
    spec fn acquired(&self) -> nat;

    /// How many exclusive guards were given back.
    spec fn released(&self) -> nat;

    /// Tries to take the exclusive guard. A refusal changes nothing.
    fn try_nonblocking_guarded_mut_borrow_mut(&mut self) -> (ok: bool)
        ensures
            ok == old(self).writable(),
            !ok ==> *final(self) == *old(self),
            ok ==> {
                &&& final(self).held()
                &&& final(self).target() == old(self).target()
                &&& final(self).acquired() == old(self).acquired() + 1
                &&& final(self).released() == old(self).released()
            },
    ;

    /// The guarded value, to change while the exclusive guard is held.
    fn guarded_mut(&mut self) -> (r: &mut U)
        requires
            old(self).held(),
        ensures
            *r == old(self).target(),
            final(self).target() == *final(r),
            final(self).held(),
            final(self).acquired() == old(self).acquired(),
            final(self).released() == old(self).released(),
    ;

    /// Gives the exclusive guard back.
    fn release_guarded_mut(&mut self)
        requires
            old(self).held(),
        ensures
            !final(self).held(),
            final(self).writable(),
            final(self).target() == old(self).target(),
            final(self).acquired() == old(self).acquired(),
            final(self).released() == old(self).released() + 1,
    ;
}

/// Marker type for [`UserDataMethodsProxy`] and [`UserDataFieldsProxy`] indicating that the
/// proxied methods should go ahead normally on an attempt to access mutably.
///
/// The type is used as a tag only; its one value carries nothing.
pub enum Mutable {
    /// The tag.
    Marker,
}

/// Marker type for [`UserDataMethodsProxy`] and [`UserDataFieldsProxy`] indicating that the
/// proxied methods should fail with `UserDataProxyBorrowMutError` on an attempt to access
/// mutably, whether or not the wrapper could grant the access.
///
/// The type is used as a tag only; its one value carries nothing.
pub enum Immutable {
    /// The tag.
    Marker,
}

/// A method of the wrapped type, as it is registered for the wrapper: it runs behind a shared
/// guard.
pub struct ProxyMethod<M, U> {
    /// The method of the wrapped type.
    pub method: M,
    /// Ties the callable to the wrapped type.
    pub _phantom: PhantomData<U>,
}

/// A mutable method of the wrapped type, as it is registered for the wrapper: it runs behind
/// the exclusive guard.
pub struct ProxyMethodMut<M, U> {
    /// The method of the wrapped type.
    pub method: M,
    /// Ties the callable to the wrapped type.
    pub _phantom: PhantomData<U>,
}

/// What is registered in place of a mutable method when the wrapper gives read access only:
/// a callable that always fails.
pub struct RejectedMethodMut {}

/// A field getter of the wrapped type, as it is registered for the wrapper: it runs behind a
/// shared guard.
pub struct ProxyFieldGetter<M, U> {
    /// The getter of the wrapped type.
    pub method: M,
    /// Ties the getter to the wrapped type.
    pub _phantom: PhantomData<U>,
}

/// A field setter of the wrapped type, as it is registered for the wrapper: it runs behind
/// the exclusive guard.
pub struct ProxyFieldSetter<M, U> {
    /// The setter of the wrapped type.
    pub method: M,
    /// Ties the setter to the wrapped type.
    pub _phantom: PhantomData<U>,
}

/// What is registered in place of a field setter when the wrapper gives read access only: a
/// setter that always fails.
pub struct RejectedFieldSetter {}

/// Gives the exclusive guard back after the forwarded call, and passes on what the call
/// returned, whatever it is.
pub fn release_after<T: NonBlockingGuardedMutBorrowMut<U>, U, R>(this: &mut T, outcome: R) -> (r: R)
    requires
        old(this).held(),
    ensures
        r == outcome,
        !final(this).held(),
        final(this).writable(),
        final(this).target() == old(this).target(),
        final(this).acquired() == old(this).acquired(),
        final(this).released() == old(this).released() + 1,
{
    this.release_guarded_mut();
    outcome
}

/// Whether a wrapper that was `before` is `after` when one exclusive guard was taken and
/// given back around a change of the guarded value to `target`.
pub open spec fn guarded_once<T: NonBlockingGuardedMutBorrowMut<U>, U>(
    before: T,
    after: T,
    target: U,
) -> bool {
    &&& after.target() == target
    &&& !after.held()
    &&& after.writable()
    &&& after.acquired() == before.acquired() + 1
    &&& after.released() == before.released() + 1
}

impl<T: NonBlockingGuardedBorrow<U>, U, M: Method<U>> Method<T> for ProxyMethod<M, U> {
    /// Fails with `UserDataProxyBorrowError` if no shared guard can be had; otherwise gives
    /// what the method of the wrapped type gives for the guarded value.
    open spec fn gives(&self, this: T, args: Vec<Value>, r: Result<Vec<Value>, Error>) -> bool {
        if this.readable() {
            self.method.gives(this.target(), args, r)
        } else {
            r == Err::<Vec<Value>, Error>(Error::UserDataProxyBorrowError)
        }
    }

    fn call(&self, this: &T, args: &Vec<Value>) -> (r: Result<Vec<Value>, Error>) {
        match this.try_nonblocking_guarded_borrow() {
            None => Err(Error::UserDataProxyBorrowError),
            Some(guard) => self.method.call(guard, args),
        }
    }
}

impl<T: NonBlockingGuardedMutBorrowMut<U>, U, M: MethodMut<U>> MethodMut<T> for ProxyMethodMut<
    M,
    U,
> {
    /// Fails with `UserDataProxyBorrowMutError`, and changes nothing, if the exclusive guard
    /// cannot be had. Otherwise the guard is taken once and given back once around one run of
    /// the method of the wrapped type on the guarded value, and the result is the method's,
    /// whatever it is.
    open spec fn does(
        &self,
        before: T,
        args: Vec<Value>,
        after: T,
        r: Result<Vec<Value>, Error>,
    ) -> bool {
        if before.writable() {
            exists|target: U|
                {
                    &&& #[trigger] self.method.does(before.target(), args, target, r)
                    &&& guarded_once(before, after, target)
                }
        } else {
            r == Err::<Vec<Value>, Error>(Error::UserDataProxyBorrowMutError) && after == before
        }
    }

    fn call_mut(&mut self, this: &mut T, args: &Vec<Value>) -> (r: Result<Vec<Value>, Error>) {
        if !this.try_nonblocking_guarded_mut_borrow_mut() {
            return Err(Error::UserDataProxyBorrowMutError);
        }
        let guard = this.guarded_mut();
        let outcome = self.method.call_mut(guard, args);
        let ghost changed = this.target();
        let r = release_after(this, outcome);
        proof {
            assert(old(self).method.does(old(this).target(), *args, changed, r));
            assert(guarded_once(*old(this), *this, changed));
        }
        r
    }
}

impl<T> MethodMut<T> for RejectedMethodMut {
    /// Always fails with `UserDataProxyBorrowMutError`, and changes nothing.
    open spec fn does(
        &self,
        before: T,
        args: Vec<Value>,
        after: T,
        r: Result<Vec<Value>, Error>,
    ) -> bool {
        r == Err::<Vec<Value>, Error>(Error::UserDataProxyBorrowMutError) && after == before
    }

    fn call_mut(&mut self, this: &mut T, args: &Vec<Value>) -> (r: Result<Vec<Value>, Error>) {
        Err(Error::UserDataProxyBorrowMutError)
    }
}

impl<T: NonBlockingGuardedBorrow<U>, U, M: FieldGetter<U>> FieldGetter<T> for ProxyFieldGetter<
    M,
    U,
> {
    /// Fails with `UserDataProxyBorrowError` if no shared guard can be had; otherwise gives
    /// what the getter of the wrapped type gives for the guarded value.
    open spec fn gives(&self, this: T, r: Result<Value, Error>) -> bool {
        if this.readable() {
            self.method.gives(this.target(), r)
        } else {
            r == Err::<Value, Error>(Error::UserDataProxyBorrowError)
        }
    }

    fn get(&self, this: &T) -> (r: Result<Value, Error>) {
        match this.try_nonblocking_guarded_borrow() {
            None => Err(Error::UserDataProxyBorrowError),
            Some(guard) => self.method.get(guard),
        }
    }
}

impl<T: NonBlockingGuardedMutBorrowMut<U>, U, M: FieldSetter<U>> FieldSetter<
    T,
> for ProxyFieldSetter<M, U> {
    /// Fails with `UserDataProxyBorrowMutError`, and changes nothing, if the exclusive guard
    /// cannot be had. Otherwise the guard is taken once and given back once around one run of
    /// the setter of the wrapped type on the guarded value, and the result is the setter's,
    /// whatever it is.
    open spec fn does(&self, before: T, value: Value, after: T, r: Result<(), Error>) -> bool {
        if before.writable() {
            exists|target: U|
                {
                    &&& #[trigger] self.method.does(before.target(), value, target, r)
                    &&& guarded_once(before, after, target)
                }
        } else {
            r == Err::<(), Error>(Error::UserDataProxyBorrowMutError) && after == before
        }
    }

    fn set(&mut self, this: &mut T, value: Value) -> (r: Result<(), Error>) {
        if !this.try_nonblocking_guarded_mut_borrow_mut() {
            return Err(Error::UserDataProxyBorrowMutError);
        }
        let guard = this.guarded_mut();
        let outcome = self.method.set(guard, value);
        let ghost changed = this.target();
        let r = release_after(this, outcome);
        proof {
            assert(old(self).method.does(old(this).target(), value, changed, r));
            assert(guarded_once(*old(this), *this, changed));
        }
        r
    }
}

impl<T> FieldSetter<T> for RejectedFieldSetter {
    /// Always fails with `UserDataProxyBorrowMutError`, and changes nothing.
    open spec fn does(&self, before: T, value: Value, after: T, r: Result<(), Error>) -> bool {
        r == Err::<(), Error>(Error::UserDataProxyBorrowMutError) && after == before
    }

    fn set(&mut self, this: &mut T, value: Value) -> (r: Result<(), Error>) {
        Err(Error::UserDataProxyBorrowMutError)
    }
}

/// The behaviour that stands for an entry of which the proxy has not been told.
pub open spec fn untold<U>() -> Behaviour<U> {
    Behaviour::Runtime(FunctionRef(0))
}

/// A proxy for [`UserDataMethods`] which forwards the methods of a type `U` to the registry of
/// a type `T` that gives guarded access to a `U`. For the [`UserDataFields`] equivalent, see
/// [`UserDataFieldsProxy`].
///
/// The proxy holds the registry while it is in use and hands it back with
/// [`into_inner`](Self::into_inner). Every entry goes to that registry under the same name and
/// as the same kind; what the registry is given for it is the callable of the wrapped type
/// behind a guard, or under the `Immutable` policy, for a callable that may change its
/// receiver, a callable that always fails.
#[verifier::reject_recursive_types(U)]
pub struct UserDataMethodsProxy<T, U, M, Marker> {
    /// The registry that the proxy forwards to.
    pub inner: M,
    /// What each callable that the proxy was given does, by the position of its entry.
    pub given: Ghost<Map<int, Behaviour<U>>>,
    /// Ties the proxy to the wrapper, the wrapped type and the policy.
    pub _phantom: PhantomData<(T, U, Marker)>,
}

/// A proxy for [`UserDataFields`] which forwards the field accessors of a type `U` to the
/// registry of a type `T` that gives guarded access to a `U`. For the [`UserDataMethods`]
/// equivalent, see [`UserDataMethodsProxy`].
///
/// The proxy holds the registry while it is in use and hands it back with
/// [`into_inner`](Self::into_inner). Every entry goes to that registry under the same name and
/// as the same kind; what the registry is given for it is the accessor of the wrapped type
/// behind a guard, or under the `Immutable` policy, for a setter, a setter that always fails.
#[verifier::reject_recursive_types(U)]
pub struct UserDataFieldsProxy<T, U, M, Marker> {
    /// The registry that the proxy forwards to.
    pub inner: M,
    /// What each accessor that the proxy was given does, by the position of its entry.
    pub given: Ghost<Map<int, Behaviour<U>>>,
    /// Ties the proxy to the wrapper, the wrapped type and the policy.
    pub _phantom: PhantomData<(T, U, Marker)>,
}

impl<T, U, M, Marker> UserDataMethodsProxy<T, U, M, Marker> {
    /// What the proxy was told of the entry at `position`.
    pub open spec fn told(&self, position: int) -> Behaviour<U> {
        if self.given@.contains_key(position) {
            self.given@[position]
        } else {
            untold()
        }
    }

    /// Hands the registry back.
    pub fn into_inner(self) -> (r: M)
        ensures
            r == self.inner,
    {
        self.inner
    }
}

impl<T, U, M, Marker> UserDataFieldsProxy<T, U, M, Marker> {
    /// What the proxy was told of the entry at `position`.
    pub open spec fn told(&self, position: int) -> Behaviour<U> {
        if self.given@.contains_key(position) {
            self.given@[position]
        } else {
            untold()
        }
    }

    /// Hands the registry back.
    pub fn into_inner(self) -> (r: M)
        ensures
            r == self.inner,
    {
        self.inner
    }
}

impl<T, U, M> UserDataMethodsProxy<T, U, M, Mutable> where
    T: NonBlockingGuardedBorrow<U> + NonBlockingGuardedMutBorrowMut<U>,
    M: UserDataMethods<T>,
 {
    /// Makes a proxy that forwards mutable methods behind the exclusive guard.
    pub fn new(methods: M) -> (r: Self)
        ensures
            r.inner == methods,
    {
        UserDataMethodsProxy { inner: methods, given: Ghost(Map::empty()), _phantom: PhantomData }
    }
}

impl<T, U, M> UserDataMethodsProxy<T, U, M, Immutable> where
    T: NonBlockingGuardedBorrow<U>,
    M: UserDataMethods<T>,
 {
    /// Makes a proxy that registers, in place of every mutable method, a callable that always
    /// fails.
    pub fn new_immutable(methods: M) -> (r: Self)
        ensures
            r.inner == methods,
    {
        UserDataMethodsProxy { inner: methods, given: Ghost(Map::empty()), _phantom: PhantomData }
    }
}

impl<T, U, M> UserDataFieldsProxy<T, U, M, Mutable> where
    T: NonBlockingGuardedBorrow<U> + NonBlockingGuardedMutBorrowMut<U>,
    M: UserDataFields<T>,
 {
    /// Makes a proxy that forwards field setters behind the exclusive guard.
    pub fn new(fields: M) -> (r: Self)
        ensures
            r.inner == fields,
    {
        UserDataFieldsProxy { inner: fields, given: Ghost(Map::empty()), _phantom: PhantomData }
    }
}

impl<T, U, M> UserDataFieldsProxy<T, U, M, Immutable> where
    T: NonBlockingGuardedBorrow<U>,
    M: UserDataFields<T>,
 {
    /// Makes a proxy that registers, in place of every field setter, a setter that always
    /// fails.
    pub fn new_immutable(fields: M) -> (r: Self)
        ensures
            r.inner == fields,
    {
        UserDataFieldsProxy { inner: fields, given: Ghost(Map::empty()), _phantom: PhantomData }
    }
}

impl<T, U, D> UserDataMethods<U> for UserDataMethodsProxy<T, U, D, Mutable> where
    T: NonBlockingGuardedBorrow<U> + NonBlockingGuardedMutBorrowMut<U>,
    U: 'static,
    D: UserDataMethods<T>,
 {
    open spec fn entries(&self) -> Seq<Entry> {
        self.inner.entries()
    }

    open spec fn behaviour(&self, position: int) -> Behaviour<U> {
        self.told(position)
    }

    fn add_method<M: Method<U> + 'static>(&mut self, name: &str, method: M)
        ensures
            final(self).inner.entries() == old(self).inner.entries().push(
                Entry { name: name@, kind: EntryKind::Method },
            ),
            final(self).inner.behaviour(old(self).inner.entries().len() as int) == reads_as::<T, ProxyMethod<M, U>>(ProxyMethod { method, _phantom: PhantomData }),
            forall|p: int|
                0 <= p < old(self).inner.entries().len() ==> #[trigger] final(self).inner.behaviour(p) == old(self).inner.behaviour(p),
    {
        let ghost position = self.inner.entries().len() as int;
        self.given = Ghost(self.given@.insert(position, reads_as::<U, M>(method)));
        self.inner.add_method(name, ProxyMethod { method, _phantom: PhantomData });
    }

    fn add_method_mut<M: MethodMut<U> + 'static>(&mut self, name: &str, method: M)
        ensures
            final(self).inner.entries() == old(self).inner.entries().push(
                Entry { name: name@, kind: EntryKind::MethodMut },
            ),
            final(self).inner.behaviour(old(self).inner.entries().len() as int) == changes_as::<T, ProxyMethodMut<M, U>>(ProxyMethodMut { method, _phantom: PhantomData }),
            forall|p: int|
                0 <= p < old(self).inner.entries().len() ==> #[trigger] final(self).inner.behaviour(p) == old(self).inner.behaviour(p),
    {
        let ghost position = self.inner.entries().len() as int;
        self.given = Ghost(self.given@.insert(position, changes_as::<U, M>(method)));
        self.inner.add_method_mut(name, ProxyMethodMut { method, _phantom: PhantomData });
    }

    fn add_function<F: Function + 'static>(&mut self, name: &str, function: F)
        ensures
            final(self).inner.entries() == old(self).inner.entries().push(
                Entry { name: name@, kind: EntryKind::Function },
            ),
            final(self).inner.behaviour(old(self).inner.entries().len() as int) == calls_as::<T, F>(function),
            forall|p: int|
                0 <= p < old(self).inner.entries().len() ==> #[trigger] final(self).inner.behaviour(p) == old(self).inner.behaviour(p),
    {
        let ghost position = self.inner.entries().len() as int;
        self.given = Ghost(self.given@.insert(position, calls_as::<U, F>(function)));
        self.inner.add_function(name, function);
    }

    fn add_function_mut<F: FunctionMut + 'static>(&mut self, name: &str, function: F)
        ensures
            final(self).inner.entries() == old(self).inner.entries().push(
                Entry { name: name@, kind: EntryKind::FunctionMut },
            ),
            final(self).inner.behaviour(old(self).inner.entries().len() as int) == calls_mut_as::<T, F>(function),
            forall|p: int|
                0 <= p < old(self).inner.entries().len() ==> #[trigger] final(self).inner.behaviour(p) == old(self).inner.behaviour(p),
    {
        let ghost position = self.inner.entries().len() as int;
        self.given = Ghost(self.given@.insert(position, calls_mut_as::<U, F>(function)));
        self.inner.add_function_mut(name, function);
    }

    fn add_meta_method<M: Method<U> + 'static>(&mut self, meta: MetaMethod, method: M)
        ensures
            final(self).inner.entries() == old(self).inner.entries().push(
                Entry { name: meta@, kind: EntryKind::MetaMethod },
            ),
            final(self).inner.behaviour(old(self).inner.entries().len() as int) == reads_as::<T, ProxyMethod<M, U>>(ProxyMethod { method, _phantom: PhantomData }),
            forall|p: int|
                0 <= p < old(self).inner.entries().len() ==> #[trigger] final(self).inner.behaviour(p) == old(self).inner.behaviour(p),
    {
        let ghost position = self.inner.entries().len() as int;
        self.given = Ghost(self.given@.insert(position, reads_as::<U, M>(method)));
        self.inner.add_meta_method(meta, ProxyMethod { method, _phantom: PhantomData });
    }

    fn add_meta_method_mut<M: MethodMut<U> + 'static>(&mut self, meta: MetaMethod, method: M)
        ensures
            final(self).inner.entries() == old(self).inner.entries().push(
                Entry { name: meta@, kind: EntryKind::MetaMethodMut },
            ),
            final(self).inner.behaviour(old(self).inner.entries().len() as int) == changes_as::<T, ProxyMethodMut<M, U>>(ProxyMethodMut { method, _phantom: PhantomData }),
            forall|p: int|
                0 <= p < old(self).inner.entries().len() ==> #[trigger] final(self).inner.behaviour(p) == old(self).inner.behaviour(p),
    {
        let ghost position = self.inner.entries().len() as int;
        self.given = Ghost(self.given@.insert(position, changes_as::<U, M>(method)));
        self.inner.add_meta_method_mut(meta, ProxyMethodMut { method, _phantom: PhantomData });
    }

    fn add_meta_function<F: Function + 'static>(&mut self, meta: MetaMethod, function: F)
        ensures
            final(self).inner.entries() == old(self).inner.entries().push(
                Entry { name: meta@, kind: EntryKind::MetaFunction },
            ),
            final(self).inner.behaviour(old(self).inner.entries().len() as int) == calls_as::<T, F>(function),
            forall|p: int|
                0 <= p < old(self).inner.entries().len() ==> #[trigger] final(self).inner.behaviour(p) == old(self).inner.behaviour(p),
    {
        let ghost position = self.inner.entries().len() as int;
        self.given = Ghost(self.given@.insert(position, calls_as::<U, F>(function)));
        self.inner.add_meta_function(meta, function);
    }

    fn add_meta_function_mut<F: FunctionMut + 'static>(&mut self, meta: MetaMethod, function: F)
        ensures
            final(self).inner.entries() == old(self).inner.entries().push(
                Entry { name: meta@, kind: EntryKind::MetaFunctionMut },
            ),
            final(self).inner.behaviour(old(self).inner.entries().len() as int) == calls_mut_as::<T, F>(function),
            forall|p: int|
                0 <= p < old(self).inner.entries().len() ==> #[trigger] final(self).inner.behaviour(p) == old(self).inner.behaviour(p),
    {
        let ghost position = self.inner.entries().len() as int;
        self.given = Ghost(self.given@.insert(position, calls_mut_as::<U, F>(function)));
        self.inner.add_meta_function_mut(meta, function);
    }

    fn add_callback(&mut self, name: &str, callback: FunctionRef)
        ensures
            final(self).inner.entries() == old(self).inner.entries().push(
                Entry { name: name@, kind: EntryKind::Callback },
            ),
            final(self).inner.behaviour(old(self).inner.entries().len() as int) == Behaviour::<T>::Runtime(callback),
            forall|p: int|
                0 <= p < old(self).inner.entries().len() ==> #[trigger] final(self).inner.behaviour(p) == old(self).inner.behaviour(p),
    {
        let ghost position = self.inner.entries().len() as int;
        self.given = Ghost(self.given@.insert(position, Behaviour::Runtime(callback)));
        self.inner.add_callback(name, callback);
    }

    fn add_meta_callback(&mut self, meta: MetaMethod, callback: FunctionRef)
        ensures
            final(self).inner.entries() == old(self).inner.entries().push(
                Entry { name: meta@, kind: EntryKind::MetaCallback },
            ),
            final(self).inner.behaviour(old(self).inner.entries().len() as int) == Behaviour::<T>::Runtime(callback),
            forall|p: int|
                0 <= p < old(self).inner.entries().len() ==> #[trigger] final(self).inner.behaviour(p) == old(self).inner.behaviour(p),
    {
        let ghost position = self.inner.entries().len() as int;
        self.given = Ghost(self.given@.insert(position, Behaviour::Runtime(callback)));
        self.inner.add_meta_callback(meta, callback);
    }
}

impl<T, U, D> UserDataMethods<U> for UserDataMethodsProxy<T, U, D, Immutable> where
    T: NonBlockingGuardedBorrow<U>,
    U: 'static,
    D: UserDataMethods<T>,
 {
    open spec fn entries(&self) -> Seq<Entry> {
        self.inner.entries()
    }

    open spec fn behaviour(&self, position: int) -> Behaviour<U> {
        self.told(position)
    }

    fn add_method<M: Method<U> + 'static>(&mut self, name: &str, method: M)
        ensures
            final(self).inner.entries() == old(self).inner.entries().push(
                Entry { name: name@, kind: EntryKind::Method },
            ),
            final(self).inner.behaviour(old(self).inner.entries().len() as int) == reads_as::<T, ProxyMethod<M, U>>(ProxyMethod { method, _phantom: PhantomData }),
            forall|p: int|
                0 <= p < old(self).inner.entries().len() ==> #[trigger] final(self).inner.behaviour(p) == old(self).inner.behaviour(p),
    {
        let ghost position = self.inner.entries().len() as int;
        self.given = Ghost(self.given@.insert(position, reads_as::<U, M>(method)));
        self.inner.add_method(name, ProxyMethod { method, _phantom: PhantomData });
    }

    fn add_method_mut<M: MethodMut<U> + 'static>(&mut self, name: &str, method: M)
        ensures
            final(self).inner.entries() == old(self).inner.entries().push(
                Entry { name: name@, kind: EntryKind::MethodMut },
            ),
            final(self).inner.behaviour(old(self).inner.entries().len() as int) == changes_as::<T, RejectedMethodMut>(RejectedMethodMut {  }),
            forall|p: int|
                0 <= p < old(self).inner.entries().len() ==> #[trigger] final(self).inner.behaviour(p) == old(self).inner.behaviour(p),
    {
        let ghost position = self.inner.entries().len() as int;
        self.given = Ghost(self.given@.insert(position, changes_as::<U, M>(method)));
        self.inner.add_method_mut(name, RejectedMethodMut {  });
    }

    fn add_function<F: Function + 'static>(&mut self, name: &str, function: F)
        ensures
            final(self).inner.entries() == old(self).inner.entries().push(
                Entry { name: name@, kind: EntryKind::Function },
            ),
            final(self).inner.behaviour(old(self).inner.entries().len() as int) == calls_as::<T, F>(function),
            forall|p: int|
                0 <= p < old(self).inner.entries().len() ==> #[trigger] final(self).inner.behaviour(p) == old(self).inner.behaviour(p),
    {
        let ghost position = self.inner.entries().len() as int;
        self.given = Ghost(self.given@.insert(position, calls_as::<U, F>(function)));
        self.inner.add_function(name, function);
    }

    fn add_function_mut<F: FunctionMut + 'static>(&mut self, name: &str, function: F)
        ensures
            final(self).inner.entries() == old(self).inner.entries().push(
                Entry { name: name@, kind: EntryKind::FunctionMut },
            ),
            final(self).inner.behaviour(old(self).inner.entries().len() as int) == calls_mut_as::<T, F>(function),
            forall|p: int|
                0 <= p < old(self).inner.entries().len() ==> #[trigger] final(self).inner.behaviour(p) == old(self).inner.behaviour(p),
    {
        let ghost position = self.inner.entries().len() as int;
        self.given = Ghost(self.given@.insert(position, calls_mut_as::<U, F>(function)));
        self.inner.add_function_mut(name, function);
    }

    fn add_meta_method<M: Method<U> + 'static>(&mut self, meta: MetaMethod, method: M)
        ensures
            final(self).inner.entries() == old(self).inner.entries().push(
                Entry { name: meta@, kind: EntryKind::MetaMethod },
            ),
            final(self).inner.behaviour(old(self).inner.entries().len() as int) == reads_as::<T, ProxyMethod<M, U>>(ProxyMethod { method, _phantom: PhantomData }),
            forall|p: int|
                0 <= p < old(self).inner.entries().len() ==> #[trigger] final(self).inner.behaviour(p) == old(self).inner.behaviour(p),
    {
        let ghost position = self.inner.entries().len() as int;
        self.given = Ghost(self.given@.insert(position, reads_as::<U, M>(method)));
        self.inner.add_meta_method(meta, ProxyMethod { method, _phantom: PhantomData });
    }

    fn add_meta_method_mut<M: MethodMut<U> + 'static>(&mut self, meta: MetaMethod, method: M)
        ensures
            final(self).inner.entries() == old(self).inner.entries().push(
                Entry { name: meta@, kind: EntryKind::MetaMethodMut },
            ),
            final(self).inner.behaviour(old(self).inner.entries().len() as int) == changes_as::<T, RejectedMethodMut>(RejectedMethodMut {  }),
            forall|p: int|
                0 <= p < old(self).inner.entries().len() ==> #[trigger] final(self).inner.behaviour(p) == old(self).inner.behaviour(p),
    {
        let ghost position = self.inner.entries().len() as int;
        self.given = Ghost(self.given@.insert(position, changes_as::<U, M>(method)));
        self.inner.add_meta_method_mut(meta, RejectedMethodMut {  });
    }

    fn add_meta_function<F: Function + 'static>(&mut self, meta: MetaMethod, function: F)
        ensures
            final(self).inner.entries() == old(self).inner.entries().push(
                Entry { name: meta@, kind: EntryKind::MetaFunction },
            ),
            final(self).inner.behaviour(old(self).inner.entries().len() as int) == calls_as::<T, F>(function),
            forall|p: int|
                0 <= p < old(self).inner.entries().len() ==> #[trigger] final(self).inner.behaviour(p) == old(self).inner.behaviour(p),
    {
        let ghost position = self.inner.entries().len() as int;
        self.given = Ghost(self.given@.insert(position, calls_as::<U, F>(function)));
        self.inner.add_meta_function(meta, function);
    }

    fn add_meta_function_mut<F: FunctionMut + 'static>(&mut self, meta: MetaMethod, function: F)
        ensures
            final(self).inner.entries() == old(self).inner.entries().push(
                Entry { name: meta@, kind: EntryKind::MetaFunctionMut },
            ),
            final(self).inner.behaviour(old(self).inner.entries().len() as int) == calls_mut_as::<T, F>(function),
            forall|p: int|
                0 <= p < old(self).inner.entries().len() ==> #[trigger] final(self).inner.behaviour(p) == old(self).inner.behaviour(p),
    {
        let ghost position = self.inner.entries().len() as int;
        self.given = Ghost(self.given@.insert(position, calls_mut_as::<U, F>(function)));
        self.inner.add_meta_function_mut(meta, function);
    }

    fn add_callback(&mut self, name: &str, callback: FunctionRef)
        ensures
            final(self).inner.entries() == old(self).inner.entries().push(
                Entry { name: name@, kind: EntryKind::Callback },
            ),
            final(self).inner.behaviour(old(self).inner.entries().len() as int) == Behaviour::<T>::Runtime(callback),
            forall|p: int|
                0 <= p < old(self).inner.entries().len() ==> #[trigger] final(self).inner.behaviour(p) == old(self).inner.behaviour(p),
    {
        let ghost position = self.inner.entries().len() as int;
        self.given = Ghost(self.given@.insert(position, Behaviour::Runtime(callback)));
        self.inner.add_callback(name, callback);
    }

    fn add_meta_callback(&mut self, meta: MetaMethod, callback: FunctionRef)
        ensures
            final(self).inner.entries() == old(self).inner.entries().push(
                Entry { name: meta@, kind: EntryKind::MetaCallback },
            ),
            final(self).inner.behaviour(old(self).inner.entries().len() as int) == Behaviour::<T>::Runtime(callback),
            forall|p: int|
                0 <= p < old(self).inner.entries().len() ==> #[trigger] final(self).inner.behaviour(p) == old(self).inner.behaviour(p),
    {
        let ghost position = self.inner.entries().len() as int;
        self.given = Ghost(self.given@.insert(position, Behaviour::Runtime(callback)));
        self.inner.add_meta_callback(meta, callback);
    }
}

impl<T, U, D> UserDataFields<U> for UserDataFieldsProxy<T, U, D, Mutable> where
    T: NonBlockingGuardedBorrow<U> + NonBlockingGuardedMutBorrowMut<U>,
    U: 'static,
    D: UserDataFields<T>,
 {
    open spec fn entries(&self) -> Seq<Entry> {
        self.inner.entries()
    }

    open spec fn behaviour(&self, position: int) -> Behaviour<U> {
        self.told(position)
    }

    fn add_field_method_get<M: FieldGetter<U> + 'static>(&mut self, name: &str, method: M)
        ensures
            final(self).inner.entries() == old(self).inner.entries().push(
                Entry { name: name@, kind: EntryKind::FieldGet },
            ),
            final(self).inner.behaviour(old(self).inner.entries().len() as int) == gets_as::<T, ProxyFieldGetter<M, U>>(ProxyFieldGetter { method, _phantom: PhantomData }),
            forall|p: int|
                0 <= p < old(self).inner.entries().len() ==> #[trigger] final(self).inner.behaviour(p) == old(self).inner.behaviour(p),
    {
        let ghost position = self.inner.entries().len() as int;
        self.given = Ghost(self.given@.insert(position, gets_as::<U, M>(method)));
        self.inner.add_field_method_get(name, ProxyFieldGetter { method, _phantom: PhantomData });
    }

    fn add_field_method_set<M: FieldSetter<U> + 'static>(&mut self, name: &str, method: M)
        ensures
            final(self).inner.entries() == old(self).inner.entries().push(
                Entry { name: name@, kind: EntryKind::FieldSet },
            ),
            final(self).inner.behaviour(old(self).inner.entries().len() as int) == sets_as::<T, ProxyFieldSetter<M, U>>(ProxyFieldSetter { method, _phantom: PhantomData }),
            forall|p: int|
                0 <= p < old(self).inner.entries().len() ==> #[trigger] final(self).inner.behaviour(p) == old(self).inner.behaviour(p),
    {
        let ghost position = self.inner.entries().len() as int;
        self.given = Ghost(self.given@.insert(position, sets_as::<U, M>(method)));
        self.inner.add_field_method_set(name, ProxyFieldSetter { method, _phantom: PhantomData });
    }

    fn add_field_function_get<F: Function + 'static>(&mut self, name: &str, function: F)
        ensures
            final(self).inner.entries() == old(self).inner.entries().push(
                Entry { name: name@, kind: EntryKind::FieldFunctionGet },
            ),
            final(self).inner.behaviour(old(self).inner.entries().len() as int) == calls_as::<T, F>(function),
            forall|p: int|
                0 <= p < old(self).inner.entries().len() ==> #[trigger] final(self).inner.behaviour(p) == old(self).inner.behaviour(p),
    {
        let ghost position = self.inner.entries().len() as int;
        self.given = Ghost(self.given@.insert(position, calls_as::<U, F>(function)));
        self.inner.add_field_function_get(name, function);
    }

    fn add_field_function_set<F: FunctionMut + 'static>(&mut self, name: &str, function: F)
        ensures
            final(self).inner.entries() == old(self).inner.entries().push(
                Entry { name: name@, kind: EntryKind::FieldFunctionSet },
            ),
            final(self).inner.behaviour(old(self).inner.entries().len() as int) == calls_mut_as::<T, F>(function),
            forall|p: int|
                0 <= p < old(self).inner.entries().len() ==> #[trigger] final(self).inner.behaviour(p) == old(self).inner.behaviour(p),
    {
        let ghost position = self.inner.entries().len() as int;
        self.given = Ghost(self.given@.insert(position, calls_mut_as::<U, F>(function)));
        self.inner.add_field_function_set(name, function);
    }

    fn add_meta_field_with<F: Function + 'static>(&mut self, meta: MetaMethod, f: F)
        ensures
            final(self).inner.entries() == old(self).inner.entries().push(
                Entry { name: meta@, kind: EntryKind::MetaField },
            ),
            final(self).inner.behaviour(old(self).inner.entries().len() as int) == calls_as::<T, F>(f),
            forall|p: int|
                0 <= p < old(self).inner.entries().len() ==> #[trigger] final(self).inner.behaviour(p) == old(self).inner.behaviour(p),
    {
        let ghost position = self.inner.entries().len() as int;
        self.given = Ghost(self.given@.insert(position, calls_as::<U, F>(f)));
        self.inner.add_meta_field_with(meta, f);
    }

    fn add_field_getter(&mut self, name: &str, callback: FunctionRef)
        ensures
            final(self).inner.entries() == old(self).inner.entries().push(
                Entry { name: name@, kind: EntryKind::FieldGetterCallback },
            ),
            final(self).inner.behaviour(old(self).inner.entries().len() as int) == Behaviour::<T>::Runtime(callback),
            forall|p: int|
                0 <= p < old(self).inner.entries().len() ==> #[trigger] final(self).inner.behaviour(p) == old(self).inner.behaviour(p),
    {
        let ghost position = self.inner.entries().len() as int;
        self.given = Ghost(self.given@.insert(position, Behaviour::Runtime(callback)));
        self.inner.add_field_getter(name, callback);
    }

    fn add_field_setter(&mut self, name: &str, callback: FunctionRef)
        ensures
            final(self).inner.entries() == old(self).inner.entries().push(
                Entry { name: name@, kind: EntryKind::FieldSetterCallback },
            ),
            final(self).inner.behaviour(old(self).inner.entries().len() as int) == Behaviour::<T>::Runtime(callback),
            forall|p: int|
                0 <= p < old(self).inner.entries().len() ==> #[trigger] final(self).inner.behaviour(p) == old(self).inner.behaviour(p),
    {
        let ghost position = self.inner.entries().len() as int;
        self.given = Ghost(self.given@.insert(position, Behaviour::Runtime(callback)));
        self.inner.add_field_setter(name, callback);
    }
}

impl<T, U, D> UserDataFields<U> for UserDataFieldsProxy<T, U, D, Immutable> where
    T: NonBlockingGuardedBorrow<U>,
    U: 'static,
    D: UserDataFields<T>,
 {
    open spec fn entries(&self) -> Seq<Entry> {
        self.inner.entries()
    }

    open spec fn behaviour(&self, position: int) -> Behaviour<U> {
        self.told(position)
    }

    fn add_field_method_get<M: FieldGetter<U> + 'static>(&mut self, name: &str, method: M)
        ensures
            final(self).inner.entries() == old(self).inner.entries().push(
                Entry { name: name@, kind: EntryKind::FieldGet },
            ),
            final(self).inner.behaviour(old(self).inner.entries().len() as int) == gets_as::<T, ProxyFieldGetter<M, U>>(ProxyFieldGetter { method, _phantom: PhantomData }),
            forall|p: int|
                0 <= p < old(self).inner.entries().len() ==> #[trigger] final(self).inner.behaviour(p) == old(self).inner.behaviour(p),
    {
        let ghost position = self.inner.entries().len() as int;
        self.given = Ghost(self.given@.insert(position, gets_as::<U, M>(method)));
        self.inner.add_field_method_get(name, ProxyFieldGetter { method, _phantom: PhantomData });
    }

    fn add_field_method_set<M: FieldSetter<U> + 'static>(&mut self, name: &str, method: M)
        ensures
            final(self).inner.entries() == old(self).inner.entries().push(
                Entry { name: name@, kind: EntryKind::FieldSet },
            ),
            final(self).inner.behaviour(old(self).inner.entries().len() as int) == sets_as::<T, RejectedFieldSetter>(RejectedFieldSetter {  }),
            forall|p: int|
                0 <= p < old(self).inner.entries().len() ==> #[trigger] final(self).inner.behaviour(p) == old(self).inner.behaviour(p),
    {
        let ghost position = self.inner.entries().len() as int;
        self.given = Ghost(self.given@.insert(position, sets_as::<U, M>(method)));
        self.inner.add_field_method_set(name, RejectedFieldSetter {  });
    }

    fn add_field_function_get<F: Function + 'static>(&mut self, name: &str, function: F)
        ensures
            final(self).inner.entries() == old(self).inner.entries().push(
                Entry { name: name@, kind: EntryKind::FieldFunctionGet },
            ),
            final(self).inner.behaviour(old(self).inner.entries().len() as int) == calls_as::<T, F>(function),
            forall|p: int|
                0 <= p < old(self).inner.entries().len() ==> #[trigger] final(self).inner.behaviour(p) == old(self).inner.behaviour(p),
    {
        let ghost position = self.inner.entries().len() as int;
        self.given = Ghost(self.given@.insert(position, calls_as::<U, F>(function)));
        self.inner.add_field_function_get(name, function);
    }

    fn add_field_function_set<F: FunctionMut + 'static>(&mut self, name: &str, function: F)
        ensures
            final(self).inner.entries() == old(self).inner.entries().push(
                Entry { name: name@, kind: EntryKind::FieldFunctionSet },
            ),
            final(self).inner.behaviour(old(self).inner.entries().len() as int) == calls_mut_as::<T, F>(function),
            forall|p: int|
                0 <= p < old(self).inner.entries().len() ==> #[trigger] final(self).inner.behaviour(p) == old(self).inner.behaviour(p),
    {
        let ghost position = self.inner.entries().len() as int;
        self.given = Ghost(self.given@.insert(position, calls_mut_as::<U, F>(function)));
        self.inner.add_field_function_set(name, function);
    }

    fn add_meta_field_with<F: Function + 'static>(&mut self, meta: MetaMethod, f: F)
        ensures
            final(self).inner.entries() == old(self).inner.entries().push(
                Entry { name: meta@, kind: EntryKind::MetaField },
            ),
            final(self).inner.behaviour(old(self).inner.entries().len() as int) == calls_as::<T, F>(f),
            forall|p: int|
                0 <= p < old(self).inner.entries().len() ==> #[trigger] final(self).inner.behaviour(p) == old(self).inner.behaviour(p),
    {
        let ghost position = self.inner.entries().len() as int;
        self.given = Ghost(self.given@.insert(position, calls_as::<U, F>(f)));
        self.inner.add_meta_field_with(meta, f);
    }

    fn add_field_getter(&mut self, name: &str, callback: FunctionRef)
        ensures
            final(self).inner.entries() == old(self).inner.entries().push(
                Entry { name: name@, kind: EntryKind::FieldGetterCallback },
            ),
            final(self).inner.behaviour(old(self).inner.entries().len() as int) == Behaviour::<T>::Runtime(callback),
            forall|p: int|
                0 <= p < old(self).inner.entries().len() ==> #[trigger] final(self).inner.behaviour(p) == old(self).inner.behaviour(p),
    {
        let ghost position = self.inner.entries().len() as int;
        self.given = Ghost(self.given@.insert(position, Behaviour::Runtime(callback)));
        self.inner.add_field_getter(name, callback);
    }

    fn add_field_setter(&mut self, name: &str, callback: FunctionRef)
        ensures
            final(self).inner.entries() == old(self).inner.entries().push(
                Entry { name: name@, kind: EntryKind::FieldSetterCallback },
            ),
            final(self).inner.behaviour(old(self).inner.entries().len() as int) == Behaviour::<T>::Runtime(callback),
            forall|p: int|
                0 <= p < old(self).inner.entries().len() ==> #[trigger] final(self).inner.behaviour(p) == old(self).inner.behaviour(p),
    {
        let ghost position = self.inner.entries().len() as int;
        self.given = Ghost(self.given@.insert(position, Behaviour::Runtime(callback)));
        self.inner.add_field_setter(name, callback);
    }
}

} // verus!
