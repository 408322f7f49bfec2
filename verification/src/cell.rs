use vstd::prelude::*;
use crate::borrow::{BorrowFlag, BorrowOp};
use crate::error::Error;
use crate::types::{Capability, TypeTable, TypeTableView, TypeToken};

verus! {

/// What the runtime asks of the value it stores without knowing its type.
///
/// The embedding program implements this once, for the type that stands for all the host
/// values it exposes. The runtime calls a function of this trait only for a value whose
/// [`TypeTable`] declares the matching capability.
pub trait HostValue: Sized {
    /// Runs the clone function of the value's type.
    fn clone_value(&self) -> Self;

    /// Runs the conversion of the value into the type that `target` identifies.
    fn convert_into(&self, target: TypeToken) -> Self;

    /// For a value that describes a type: the identity of the type it describes.
    fn subject(&self) -> TypeToken;
}

/// Storage for one host value of a type unknown to the runtime, with its type table and a
/// borrow flag that is checked at run time.
///
/// The flag admits any number of shared views or one exclusive view. No request ever waits:
/// one that cannot be granted fails at once and changes nothing. The exclusive view takes the
/// value out of the cell and brings it back when it is released, so that no second path to the
/// value exists meanwhile.
#[derive(Debug)]
pub struct UserDataCell<H> {
    table: TypeTable,
    flag: BorrowFlag,
    value: Option<H>,
}

/// The mathematical content of a [`UserDataCell`].
pub struct UserDataCellView<H> {
    /// The table of the stored value's type.
    pub table: TypeTableView,
    /// The borrow state.
    pub flag: BorrowFlag,
    /// The stored value; `None` while the exclusive view holds it.
    pub value: Option<H>,
}

impl<H> View for UserDataCell<H> {
    type V = UserDataCellView<H>;

    closed spec fn view(&self) -> UserDataCellView<H> {
        UserDataCellView { table: self.table@, flag: self.flag, value: self.value }
    }
}

impl<H> UserDataCellView<H> {
    /// The value is away exactly while the exclusive view is outstanding.
    pub open spec fn wf(&self) -> bool {
        self.flag.wf() && (self.value is None <==> self.flag is Exclusive)
    }

    /// Whether the stored value's type declared `capability`.
    pub open spec fn declares(&self, capability: Capability) -> bool {
        self.table.capabilities.contains(capability)
    }

    /// The cell with its flag moved by a request.
    pub open spec fn stepped(self, op: BorrowOp) -> UserDataCellView<H> {
        UserDataCellView { flag: self.flag.step(op), ..self }
    }
}

impl<H> UserDataCell<H> {
    /// Moves a value into a new cell. No view of it is outstanding.
    pub fn new(table: TypeTable, data: H) -> (r: UserDataCell<H>)
        ensures
            r@ == (UserDataCellView { table: table@, flag: BorrowFlag::Free, value: Some(data) }),
            r@.wf(),
    {
        UserDataCell { table, flag: BorrowFlag::Free, value: Some(data) }
    }

    /// Moves a value into a new cell that carries the table of the unit type, which declares
    /// nothing. This is for a value whose own type cannot be registered.
    pub fn new_nonstatic(data: H) -> (r: UserDataCell<H>)
        ensures
            r@ == (UserDataCellView {
                table: TypeTableView { id: TypeToken(0), capabilities: Set::empty() },
                flag: BorrowFlag::Free,
                value: Some(data),
            }),
            r@.wf(),
    {
        UserDataCell::new(TypeTable::new(TypeToken::unit()), data)
    }

    /// The table of the stored value's type.
    pub fn table(&self) -> (r: &TypeTable)
        ensures
            r@ == self@.table,
    {
        &self.table
    }

    /// The borrow state.
    pub fn flag(&self) -> (r: BorrowFlag)
        ensures
            r == self@.flag,
    {
        self.flag
    }

    /// The stored value, unless the exclusive view holds it.
    pub fn get(&self) -> (r: Option<&H>)
        ensures
            r.is_some() == self@.value.is_some(),
            r matches Some(v) ==> *v == self@.value.unwrap(),
    {
        self.value.as_ref()
    }

    /// Asks for a shared view.
    ///
    /// Fails with `UserDataBorrowError`, and changes nothing, if the exclusive view is
    /// outstanding or the count of shared views would not fit the machine word.
    pub fn try_borrow(&mut self) -> (r: Result<(), Error>)
        requires
            old(self)@.wf(),
        ensures
            final(self)@.wf(),
            final(self)@ == old(self)@.stepped(BorrowOp::Borrow),
            old(self)@.flag.admits_shared() ==> r == Ok::<(), Error>(()),
            !old(self)@.flag.admits_shared() ==> r == Err::<(), Error>(
                Error::UserDataBorrowError,
            ) && final(self)@ == old(self)@,
    {
        if self.flag.apply(BorrowOp::Borrow) {
            Ok(())
        } else {
            Err(Error::UserDataBorrowError)
        }
    }

    /// Gives a shared view back. Returns `false`, and changes nothing, if no shared view is
    /// outstanding.
    pub fn release_borrow(&mut self) -> (r: bool)
        requires
            old(self)@.wf(),
        ensures
            final(self)@.wf(),
            final(self)@ == old(self)@.stepped(BorrowOp::Release),
            r == (old(self)@.flag is Shared),
    {
        self.flag.apply(BorrowOp::Release)
    }

    /// Asks for the exclusive view, which takes the value out of the cell.
    ///
    /// Fails with `UserDataBorrowMutError`, and changes nothing, if any view is outstanding.
    pub fn try_borrow_mut(&mut self) -> (r: Result<H, Error>)
        requires
            old(self)@.wf(),
        ensures
            final(self)@.wf(),
            old(self)@.flag.admits_exclusive() ==> r == Ok::<H, Error>(old(self)@.value.unwrap())
                && final(self)@ == (UserDataCellView {
                flag: BorrowFlag::Exclusive,
                value: None,
                ..old(self)@
            }),
            !old(self)@.flag.admits_exclusive() ==> r == Err::<H, Error>(
                Error::UserDataBorrowMutError,
            ) && final(self)@ == old(self)@,
    {
        if self.flag.apply(BorrowOp::BorrowMut) {
            match self.value.take() {
                Some(v) => Ok(v),
                None => vstd::pervasive::unreached(),
            }
        } else {
            Err(Error::UserDataBorrowMutError)
        }
    }

    /// Gives the exclusive view back, and with it the value.
    ///
    /// If the exclusive view is not outstanding the cell is left as it is and the value is
    /// handed back to the caller.
    pub fn release_borrow_mut(&mut self, value: H) -> (r: Result<(), H>)
        requires
            old(self)@.wf(),
        ensures
            final(self)@.wf(),
            old(self)@.flag is Exclusive ==> r == Ok::<(), H>(()) && final(self)@ == (
            UserDataCellView { flag: BorrowFlag::Free, value: Some(value), ..old(self)@ }),
            !(old(self)@.flag is Exclusive) ==> r == Err::<(), H>(value) && final(self)@ == old(
                self,
            )@,
    {
        if self.flag.apply(BorrowOp::ReleaseMut) {
            self.value = Some(value);
            Ok(())
        } else {
            Err(value)
        }
    }

    /// Asks for a shared view of a value whose type declares `capability`.
    ///
    /// Fails with `UserDataDynMismatch` if the capability is not declared, whatever the borrow
    /// state is, and otherwise as [`try_borrow`](Self::try_borrow) does. A failure changes
    /// nothing.
    pub fn try_dyn_borrow(&mut self, capability: Capability) -> (r: Result<(), Error>)
        requires
            old(self)@.wf(),
        ensures
            final(self)@.wf(),
            !old(self)@.declares(capability) ==> r == Err::<(), Error>(Error::UserDataDynMismatch)
                && final(self)@ == old(self)@,
            old(self)@.declares(capability) && !old(self)@.flag.admits_shared() ==> r == Err::<
                (),
                Error,
            >(Error::UserDataBorrowError) && final(self)@ == old(self)@,
            old(self)@.declares(capability) && old(self)@.flag.admits_shared() ==> r == Ok::<
                (),
                Error,
            >(()) && final(self)@ == old(self)@.stepped(BorrowOp::Borrow),
    {
        if !self.table.is(capability) {
            return Err(Error::UserDataDynMismatch);
        }
        self.try_borrow()
    }

    /// Asks for the exclusive view of a value whose type declares `capability`.
    ///
    /// Fails with `UserDataDynMismatch` if the capability is not declared, whatever the borrow
    /// state is, and otherwise as [`try_borrow_mut`](Self::try_borrow_mut) does. A failure
    /// changes nothing.
    pub fn try_dyn_borrow_mut(&mut self, capability: Capability) -> (r: Result<H, Error>)
        requires
            old(self)@.wf(),
        ensures
            final(self)@.wf(),
            !old(self)@.declares(capability) ==> r == Err::<H, Error>(Error::UserDataDynMismatch)
                && final(self)@ == old(self)@,
            old(self)@.declares(capability) && !old(self)@.flag.admits_exclusive() ==> r == Err::<
                H,
                Error,
            >(Error::UserDataBorrowMutError) && final(self)@ == old(self)@,
            old(self)@.declares(capability) && old(self)@.flag.admits_exclusive() ==> r == Ok::<
                H,
                Error,
            >(old(self)@.value.unwrap()) && final(self)@ == (UserDataCellView {
                flag: BorrowFlag::Exclusive,
                value: None,
                ..old(self)@
            }),
    {
        if !self.table.is(capability) {
            return Err(Error::UserDataDynMismatch);
        }
        self.try_borrow_mut()
    }

    /// Consumes the cell and returns the stored value, unless the exclusive view holds it.
    pub fn into_inner(self) -> (r: Option<H>)
        ensures
            r == self@.value,
    {
        self.value
    }

    /// Consumes the cell and returns the stored value in a box, unless the exclusive view
    /// holds it.
    pub fn into_boxed(self) -> (r: Option<Box<H>>)
        ensures
            r.is_some() == self@.value.is_some(),
            r matches Some(b) ==> *b == self@.value.unwrap(),
    {
        match self.value {
            Some(v) => Some(Box::new(v)),
            None => None,
        }
    }
}

impl<H: HostValue> UserDataCell<H> {
    /// Clones the stored value with the clone function of its type.
    ///
    /// Returns a clone exactly when the type declared a clone function and the value is in
    /// the cell. The cell is not changed.
    pub fn try_clone(&self) -> (r: Option<H>)
        ensures
            r.is_some() == (self@.declares(Capability::Clone) && self@.value.is_some()),
            r matches Some(c) ==> call_ensures(H::clone_value, (&self@.value.unwrap(),), c),
    {
        if !self.table.has_clone() {
            return None;
        }
        match &self.value {
            Some(v) => Some(v.clone_value()),
            None => None,
        }
    }
}

} // verus!
