use vstd::prelude::*;
use crate::borrow::{BorrowFlag, BorrowOp};
use crate::methods::{Entry, UserData, UserDataFields, UserDataMethods};
use crate::proxy::{
    Immutable,
    Mutable,
    NonBlockingGuardedBorrow,
    NonBlockingGuardedMutBorrowMut,
    UserDataFieldsProxy,
    UserDataMethodsProxy,
};
use crate::types::{Capability, TypeTable};

verus! {

/// A value behind a guard that is checked at run time: the wrapper for a value with one owner
/// or behind a lock.
///
/// Any number of shared guards or one exclusive guard can be outstanding. A guard is asked
/// for without waiting. The cell counts the exclusive guards it handed out and got back.
pub struct GuardedCell<T> {
    flag: BorrowFlag,
    value: T,
    acquired: Ghost<nat>,
    released: Ghost<nat>,
}

/// A value that can only be read: the wrapper for a reference that was lent out for reading.
pub struct SharedRef<T> {
    value: T,
}

impl<T> GuardedCell<T> {
    /// The borrow state of the cell.
    pub closed spec fn flag(&self) -> BorrowFlag {
        self.flag
    }

    /// The value in the cell.
    pub closed spec fn value(&self) -> T {
        self.value
    }

    /// The count of shared guards is never zero while the state is shared.
    pub closed spec fn wf(&self) -> bool {
        self.flag.wf()
    }

    /// How many exclusive guards the cell handed out.
    pub closed spec fn guards_acquired(&self) -> nat {
        self.acquired@
    }

    /// How many exclusive guards the cell got back.
    pub closed spec fn guards_released(&self) -> nat {
        self.released@
    }

    /// Wraps a value. No guard is outstanding.
    pub fn new(value: T) -> (r: GuardedCell<T>)
        ensures
            r.wf(),
            r.flag() == BorrowFlag::Free,
            r.value() == value,
            r.guards_acquired() == 0,
            r.guards_released() == 0,
    {
        GuardedCell { flag: BorrowFlag::Free, value, acquired: Ghost(0), released: Ghost(0) }
    }

    /// Takes a shared guard and keeps it outstanding. Returns `false`, and changes nothing, if
    /// the exclusive guard is outstanding.
    pub fn hold_shared(&mut self) -> (r: bool)
        requires
            old(self).wf(),
        ensures
            final(self).wf(),
            r == old(self).flag().admits_shared(),
            final(self).flag() == old(self).flag().step(BorrowOp::Borrow),
            final(self).value() == old(self).value(),
            final(self).guards_acquired() == old(self).guards_acquired(),
            final(self).guards_released() == old(self).guards_released(),
    {
        self.flag.apply(BorrowOp::Borrow)
    }

    /// Gives back a shared guard that was kept outstanding. Returns `false`, and changes
    /// nothing, if no shared guard is outstanding.
    pub fn release_shared(&mut self) -> (r: bool)
        requires
            old(self).wf(),
        ensures
            final(self).wf(),
            r == (old(self).flag() is Shared),
            final(self).flag() == old(self).flag().step(BorrowOp::Release),
            final(self).value() == old(self).value(),
            final(self).guards_acquired() == old(self).guards_acquired(),
            final(self).guards_released() == old(self).guards_released(),
    {
        self.flag.apply(BorrowOp::Release)
    }

    /// The value, read past the guards. This is for the owner of the cell, who knows what is
    /// outstanding.
    pub fn peek(&self) -> (r: &T)
        ensures
            *r == self.value(),
    {
        &self.value
    }

    /// Consumes the cell and returns the value.
    pub fn into_inner(self) -> (r: T)
        ensures
            r == self.value(),
    {
        self.value
    }
}

impl<T> NonBlockingGuardedBorrow<T> for GuardedCell<T> {
    open spec fn readable(&self) -> bool {
        !(self.flag() is Exclusive)
    }

    open spec fn target(&self) -> T {
        self.value()
    }

    fn try_nonblocking_guarded_borrow(&self) -> (r: Option<&T>) {
        match self.flag {
            BorrowFlag::Exclusive => None,
            _ => Some(&self.value),
        }
    }
}

impl<T> NonBlockingGuardedMutBorrowMut<T> for GuardedCell<T> {
    open spec fn writable(&self) -> bool {
        self.flag() is Free
    }

    open spec fn held(&self) -> bool {
        self.flag() is Exclusive
    }

    open spec fn acquired(&self) -> nat {
        self.guards_acquired()
    }

    open spec fn released(&self) -> nat {
        self.guards_released()
    }

    fn try_nonblocking_guarded_mut_borrow_mut(&mut self) -> (ok: bool) {
        match self.flag {
            BorrowFlag::Free => {
                self.flag = BorrowFlag::Exclusive;
                self.acquired = Ghost(self.acquired@ + 1);
                true
            },
            _ => false,
        }
    }

    fn guarded_mut(&mut self) -> (r: &mut T) {
        &mut self.value
    }

    fn release_guarded_mut(&mut self) {
        self.flag = BorrowFlag::Free;
        self.released = Ghost(self.released@ + 1);
    }
}

impl<T> SharedRef<T> {
    /// The value that the reference shows.
    pub closed spec fn value(&self) -> T {
        self.value
    }

    /// Wraps a value for reading.
    pub fn new(value: T) -> (r: SharedRef<T>)
        ensures
            r.value() == value,
    {
        SharedRef { value }
    }

    /// Consumes the reference and returns the value.
    pub fn into_inner(self) -> (r: T)
        ensures
            r == self.value(),
    {
        self.value
    }
}

impl<T> NonBlockingGuardedBorrow<T> for SharedRef<T> {
    open spec fn readable(&self) -> bool {
        true
    }

    open spec fn target(&self) -> T {
        self.value()
    }

    fn try_nonblocking_guarded_borrow(&self) -> (r: Option<&T>) {
        Some(&self.value)
    }
}

impl<T: UserData + 'static> UserData for GuardedCell<T> {
    open spec fn names_surface() -> bool {
        T::names_surface()
    }

    open spec fn fields_surface() -> Seq<Entry> {
        T::fields_surface()
    }

    open spec fn methods_surface() -> Seq<Entry> {
        T::methods_surface()
    }

    /// The wrapper exposes the fields of the wrapped type, each behind a guard: it hands the
    /// wrapped type a proxy over the registry, and the registry gets every entry that the
    /// wrapped type gives the proxy, under the same name and as the same kind.
    fn add_fields<F: UserDataFields<Self>>(fields: F) -> (r: F) {
        let proxy = UserDataFieldsProxy::<GuardedCell<T>, T, F, Mutable>::new(fields);
        let proxy = T::add_fields(proxy);
        proxy.into_inner()
    }

    /// The wrapper exposes the methods of the wrapped type, each behind a guard: it hands the
    /// wrapped type a proxy over the registry, and the registry gets every entry that the
    /// wrapped type gives the proxy, under the same name and as the same kind.
    fn add_methods<M: UserDataMethods<Self>>(methods: M) -> (r: M) {
        let proxy = UserDataMethodsProxy::<GuardedCell<T>, T, M, Mutable>::new(methods);
        let proxy = T::add_methods(proxy);
        proxy.into_inner()
    }

    /// A handle to a guarded value can be cloned.
    fn on_metatable_init(table: &mut TypeTable)
        ensures
            final(table)@.id == old(table)@.id,
            final(table)@.capabilities == old(table)@.capabilities.insert(Capability::Clone),
    {
        table.add_clone();
    }
}

impl<T: UserData + 'static> UserData for SharedRef<T> {
    open spec fn names_surface() -> bool {
        T::names_surface()
    }

    open spec fn fields_surface() -> Seq<Entry> {
        T::fields_surface()
    }

    open spec fn methods_surface() -> Seq<Entry> {
        T::methods_surface()
    }

    /// The wrapper exposes the fields of the wrapped type for reading: it hands the wrapped
    /// type a read-only proxy over the registry, and the registry gets every entry that the
    /// wrapped type gives the proxy, under the same name and as the same kind.
    fn add_fields<F: UserDataFields<Self>>(fields: F) -> (r: F) {
        let proxy = UserDataFieldsProxy::<SharedRef<T>, T, F, Immutable>::new_immutable(fields);
        let proxy = T::add_fields(proxy);
        proxy.into_inner()
    }

    /// The wrapper exposes the methods of the wrapped type for reading: it hands the wrapped
    /// type a read-only proxy over the registry, and the registry gets every entry that the
    /// wrapped type gives the proxy, under the same name and as the same kind.
    fn add_methods<M: UserDataMethods<Self>>(methods: M) -> (r: M) {
        let proxy = UserDataMethodsProxy::<SharedRef<T>, T, M, Immutable>::new_immutable(
            methods,
        );
        let proxy = T::add_methods(proxy);
        proxy.into_inner()
    }

    /// A handle to a shared reference can be cloned.
    fn on_metatable_init(table: &mut TypeTable)
        ensures
            final(table)@.id == old(table)@.id,
            final(table)@.capabilities == old(table)@.capabilities.insert(Capability::Clone),
    {
        table.add_clone();
    }
}

} // verus!
