use vstd::prelude::*;
use vstd::string::*;
use crate::borrow::{BorrowFlag, BorrowOp};
use crate::cell::{HostValue, UserDataCellView};
use crate::error::Error;
use crate::lua::{Lua, LuaView, Probe, UserDataView};
use crate::metatable::UserDataMetatable;
use crate::types::{Capability, TypeTable, TypeToken};
use crate::uservalues::{is_slot_index, no_user_values, slot_in_range};
use crate::value::Value;

verus! {

/// Handle to a userdata held by the runtime.
///
/// A handle names a place in the runtime's storage. It does not own the value: copies of a
/// handle name the same userdata, and two handles are identical exactly when they name the
/// same place.
///
/// Once the value of a userdata was taken out, the userdata is destructed: every operation on
/// its handles fails with `UserDataDestructed`, except the type probe and the comparisons.
#[derive(Clone, Copy, Debug, PartialEq, Eq, Structural)]
pub struct AnyUserData {
    location: usize,
}

/// A shared view of a userdata, handed out by [`AnyUserData::borrow`] and
/// [`AnyUserData::dyn_borrow`]. The view counts in the borrow flag of the userdata until it is
/// released.
#[derive(Debug)]
pub struct UserDataRef {
    location: usize,
}

/// The exclusive view of a userdata, handed out by [`AnyUserData::borrow_mut`] and
/// [`AnyUserData::dyn_borrow_mut`]. The view holds the value until it is released, so nothing
/// else can reach the value meanwhile.
#[derive(Debug)]
pub struct UserDataRefMut<H> {
    location: usize,
    value: H,
}

impl UserDataRef {
    /// The place of the userdata that the view looks at.
    pub closed spec fn place(&self) -> int {
        self.location as int
    }

    /// The value that the view looks at, unless the userdata was destructed or its value is
    /// held by the exclusive view.
    pub fn get<'a, H>(&self, lua: &'a Lua<H>) -> (r: Option<&'a H>)
        requires
            lua.wf(),
        ensures
            r.is_some() == (lua@.is_live(self.place()) && lua@.cell(self.place()).value.is_some()),
            r matches Some(v) ==> *v == lua@.cell(self.place()).value.unwrap(),
    {
        match lua.probe(self.location) {
            Probe::Live => lua.cell_ref(self.location).get(),
            _ => None,
        }
    }

    /// Gives the view back. Returns `false`, and changes nothing, if the userdata has no
    /// shared view outstanding.
    pub fn release<H>(self, lua: &mut Lua<H>) -> (r: bool)
        requires
            old(lua).wf(),
        ensures
            final(lua).wf(),
            r == (old(lua)@.is_live(self.place()) && old(lua)@.cell(self.place()).flag is Shared),
            r ==> final(lua)@ == old(lua)@.with_cell(
                self.place(),
                old(lua)@.cell(self.place()).stepped(BorrowOp::Release),
            ),
            !r ==> final(lua)@ == old(lua)@,
    {
        match lua.probe(self.location) {
            Probe::Live => {
                let released = lua.cell_release_borrow(self.location);
                proof {
                    if !released {
                        assert(old(lua)@.cell(self.place()).stepped(BorrowOp::Release) == old(
                            lua,
                        )@.cell(self.place()));
                        assert(old(lua)@.userdata.update(
                            self.place(),
                            old(lua)@.userdata[self.place()],
                        ) =~= old(lua)@.userdata);
                    }
                }
                released
            },
            _ => false,
        }
    }
}

impl<H> UserDataRefMut<H> {
    /// The place of the userdata that the view was taken from.
    pub closed spec fn place(&self) -> int {
        self.location as int
    }

    /// The value that the view holds.
    pub closed spec fn value(&self) -> H {
        self.value
    }

    /// The value, to read.
    pub fn get(&self) -> (r: &H)
        ensures
            *r == self.value(),
    {
        &self.value
    }

    /// The value, to change.
    pub fn get_mut(&mut self) -> (r: &mut H)
        ensures
            *r == old(self).value(),
            final(self).value() == *final(r),
            final(self).place() == old(self).place(),
    {
        &mut self.value
    }

    /// Gives the view back, and the value with it.
    ///
    /// If the userdata is not held by an exclusive view, nothing changes and the value is
    /// handed back to the caller.
    pub fn release(self, lua: &mut Lua<H>) -> (r: Result<(), H>)
        requires
            old(lua).wf(),
        ensures
            final(lua).wf(),
            old(lua)@.is_live(self.place()) && old(lua)@.cell(self.place()).flag is Exclusive
                ==> r == Ok::<(), H>(()) && final(lua)@ == old(lua)@.with_cell(
                self.place(),
                UserDataCellView {
                    flag: BorrowFlag::Free,
                    value: Some(self.value()),
                    ..old(lua)@.cell(self.place())
                },
            ),
            !(old(lua)@.is_live(self.place()) && old(lua)@.cell(self.place()).flag is Exclusive)
                ==> r == Err::<(), H>(self.value()) && final(lua)@ == old(lua)@,
    {
        match lua.probe(self.location) {
            Probe::Live => lua.cell_release_borrow_mut(self.location, self.value),
            _ => Err(self.value),
        }
    }
}

impl AnyUserData {
    /// The place in the runtime's storage that the handle names.
    pub closed spec fn place(&self) -> int {
        self.location as int
    }

    /// The handle that names `location`.
    pub(crate) fn at(location: usize) -> (r: AnyUserData)
        ensures
            r.place() == location,
    {
        AnyUserData { location }
    }

    /// Tests whether two handles are identical: whether they name the same userdata. This
    /// never fails, whatever state the userdata is in.
    pub fn same(&self, other: &AnyUserData) -> (r: bool)
        ensures
            r == (self.place() == other.place()),
            r == (*self == *other),
    {
        self.location == other.location
    }

    /// Why the handle cannot be used at all, if it cannot: it names no userdata, or the
    /// userdata is destructed.
    pub open spec fn raw_error<H>(&self, lua: LuaView<H>) -> Option<Error> {
        if !lua.has(self.place()) {
            Some(Error::UserDataTypeMismatch)
        } else if !lua.is_live(self.place()) {
            Some(Error::UserDataDestructed)
        } else {
            None
        }
    }

    /// Why the handle cannot be used as a userdata of type `ty`, if it cannot.
    pub open spec fn typed_error<H>(&self, lua: LuaView<H>, ty: TypeToken) -> Option<Error> {
        match self.raw_error(lua) {
            Some(e) => Some(e),
            None => if lua.cell(self.place()).table.id != ty {
                Some(Error::UserDataTypeMismatch)
            } else {
                None
            },
        }
    }

    /// Why the handle cannot be used through `capability`, if it cannot.
    pub open spec fn dyn_error<H>(&self, lua: LuaView<H>, capability: Capability) -> Option<
        Error,
    > {
        match self.raw_error(lua) {
            Some(e) => Some(e),
            None => if !lua.cell(self.place()).declares(capability) {
                Some(Error::UserDataDynMismatch)
            } else {
                None
            },
        }
    }

    /// The storage after the value of this userdata was taken out: the cell is gone and the
    /// user values are cleared.
    pub open spec fn destructed_in<H>(&self, lua: LuaView<H>) -> LuaView<H> {
        lua.with_userdata(self.place(), lua.userdata[self.place()].destructed())
    }

    /// What a request for a shared view does, once `gate` says whether the handle may be used.
    pub open spec fn shared_view_outcome<H>(
        &self,
        before: LuaView<H>,
        gate: Option<Error>,
        r: Result<UserDataRef, Error>,
        after: LuaView<H>,
    ) -> bool {
        match gate {
            Some(e) => r == Err::<UserDataRef, Error>(e) && after == before,
            None => if before.cell(self.place()).flag.admits_shared() {
                &&& r matches Ok(view)
                &&& view.place() == self.place()
                &&& after == before.with_cell(
                    self.place(),
                    before.cell(self.place()).stepped(BorrowOp::Borrow),
                )
            } else {
                r == Err::<UserDataRef, Error>(Error::UserDataBorrowError) && after == before
            },
        }
    }

    /// What a request for the exclusive view does, once `gate` says whether the handle may be
    /// used.
    pub open spec fn exclusive_view_outcome<H>(
        &self,
        before: LuaView<H>,
        gate: Option<Error>,
        r: Result<UserDataRefMut<H>, Error>,
        after: LuaView<H>,
    ) -> bool {
        match gate {
            Some(e) => r == Err::<UserDataRefMut<H>, Error>(e) && after == before,
            None => if before.cell(self.place()).flag.admits_exclusive() {
                &&& r matches Ok(view)
                &&& view.place() == self.place()
                &&& view.value() == before.cell(self.place()).value.unwrap()
                &&& after == before.with_cell(
                    self.place(),
                    UserDataCellView {
                        flag: BorrowFlag::Exclusive,
                        value: None,
                        ..before.cell(self.place())
                    },
                )
            } else {
                r == Err::<UserDataRefMut<H>, Error>(Error::UserDataBorrowMutError) && after
                    == before
            },
        }
    }

    /// What taking the value out does, once `gate` says whether the handle may be used.
    pub open spec fn take_outcome<H>(
        &self,
        before: LuaView<H>,
        gate: Option<Error>,
        r: Result<H, Error>,
        after: LuaView<H>,
    ) -> bool {
        match gate {
            Some(e) => r == Err::<H, Error>(e) && after == before,
            None => if before.cell(self.place()).flag.admits_exclusive() {
                &&& r == Ok::<H, Error>(before.cell(self.place()).value.unwrap())
                &&& after == self.destructed_in(before)
            } else {
                r == Err::<H, Error>(Error::UserDataBorrowMutError) && after == before
            },
        }
    }

    fn inspect_raw<H>(&self, lua: &Lua<H>) -> (r: Result<(), Error>)
        ensures
            r == match self.raw_error(lua@) {
                Some(e) => Err::<(), Error>(e),
                None => Ok::<(), Error>(()),
            },
    {
        match lua.probe(self.location) {
            Probe::Missing => Err(Error::UserDataTypeMismatch),
            Probe::Destructed => Err(Error::UserDataDestructed),
            Probe::Live => Ok(()),
        }
    }

    fn inspect<H>(&self, lua: &Lua<H>, ty: TypeToken) -> (r: Result<(), Error>)
        ensures
            r == match self.typed_error(lua@, ty) {
                Some(e) => Err::<(), Error>(e),
                None => Ok::<(), Error>(()),
            },
    {
        match self.inspect_raw(lua) {
            Err(e) => Err(e),
            Ok(()) => {
                if lua.cell_ref(self.location).table().id() == ty {
                    Ok(())
                } else {
                    Err(Error::UserDataTypeMismatch)
                }
            },
        }
    }

    fn inspect_dyn<H>(&self, lua: &Lua<H>, capability: Capability) -> (r: Result<(), Error>)
        ensures
            r == match self.dyn_error(lua@, capability) {
                Some(e) => Err::<(), Error>(e),
                None => Ok::<(), Error>(()),
            },
    {
        match self.inspect_raw(lua) {
            Err(e) => Err(e),
            Ok(()) => {
                if lua.cell_ref(self.location).table().is(capability) {
                    Ok(())
                } else {
                    Err(Error::UserDataDynMismatch)
                }
            },
        }
    }

    /// Checks whether the userdata holds a value of the type that `ty` identifies.
    ///
    /// The probe never fails: for a destructed userdata, and for a handle that names no
    /// userdata, the answer is `false`.
    pub fn is<H>(&self, lua: &Lua<H>, ty: TypeToken) -> (r: bool)
        ensures
            r == (self.typed_error(lua@, ty) is None),
            r == (lua@.is_live(self.place()) && lua@.cell(self.place()).table.id == ty),
    {
        match self.inspect(lua, ty) {
            Ok(()) => true,
            Err(_) => false,
        }
    }

    /// Gets the type table of the value inside the userdata, if a value is there.
    pub fn type_table<'a, H>(&self, lua: &'a Lua<H>) -> (r: Option<&'a TypeTable>)
        ensures
            r.is_some() == lua@.is_live(self.place()),
            r matches Some(table) ==> table@ == lua@.cell(self.place()).table,
    {
        match lua.probe(self.location) {
            Probe::Live => Some(lua.cell_ref(self.location).table()),
            _ => None,
        }
    }

    fn acquire_shared<H>(&self, lua: &mut Lua<H>) -> (r: Result<UserDataRef, Error>)
        requires
            old(lua).wf(),
            old(lua)@.is_live(self.place()),
        ensures
            final(lua).wf(),
            self.shared_view_outcome(old(lua)@, None, r, final(lua)@),
    {
        match lua.cell_try_borrow(self.location) {
            Ok(()) => Ok(UserDataRef { location: self.location }),
            Err(e) => Err(e),
        }
    }

    fn acquire_exclusive<H>(&self, lua: &mut Lua<H>) -> (r: Result<UserDataRefMut<H>, Error>)
        requires
            old(lua).wf(),
            old(lua)@.is_live(self.place()),
        ensures
            final(lua).wf(),
            self.exclusive_view_outcome(old(lua)@, None, r, final(lua)@),
    {
        match lua.cell_try_borrow_mut(self.location) {
            Ok(value) => Ok(UserDataRefMut { location: self.location, value }),
            Err(e) => Err(e),
        }
    }

    fn extract<H>(&self, lua: &mut Lua<H>) -> (r: Result<H, Error>)
        requires
            old(lua).wf(),
            old(lua)@.is_live(self.place()),
        ensures
            final(lua).wf(),
            self.take_outcome(old(lua)@, None, r, final(lua)@),
    {
        proof {
            lua.lemma_wf();
            assert(old(lua)@.userdata[self.place()].cell.unwrap().wf());
        }
        match lua.cell_ref(self.location).flag() {
            BorrowFlag::Free => {
                let cell = lua.destruct(self.location);
                match cell.into_inner() {
                    Some(value) => Ok(value),
                    None => vstd::pervasive::unreached(),
                }
            },
            _ => Err(Error::UserDataBorrowMutError),
        }
    }

    /// Borrows the userdata immutably if it holds a value of the type `ty`.
    ///
    /// Fails with `UserDataTypeMismatch` if the handle names no userdata or the type differs,
    /// with `UserDataDestructed` if the value was taken out, and with `UserDataBorrowError` if
    /// the exclusive view is outstanding. A failure changes nothing.
    pub fn borrow<H>(&self, lua: &mut Lua<H>, ty: TypeToken) -> (r: Result<UserDataRef, Error>)
        requires
            old(lua).wf(),
        ensures
            final(lua).wf(),
            self.shared_view_outcome(
                old(lua)@,
                self.typed_error(old(lua)@, ty),
                r,
                final(lua)@,
            ),
    {
        match self.inspect(lua, ty) {
            Err(e) => Err(e),
            Ok(()) => self.acquire_shared(lua),
        }
    }

    /// Borrows the userdata mutably if it holds a value of the type `ty`.
    ///
    /// Fails with `UserDataTypeMismatch` if the handle names no userdata or the type differs,
    /// with `UserDataDestructed` if the value was taken out, and with `UserDataBorrowMutError`
    /// if any view is outstanding. A failure changes nothing.
    pub fn borrow_mut<H>(&self, lua: &mut Lua<H>, ty: TypeToken) -> (r: Result<
        UserDataRefMut<H>,
        Error,
    >)
        requires
            old(lua).wf(),
        ensures
            final(lua).wf(),
            self.exclusive_view_outcome(
                old(lua)@,
                self.typed_error(old(lua)@, ty),
                r,
                final(lua)@,
            ),
    {
        match self.inspect(lua, ty) {
            Err(e) => Err(e),
            Ok(()) => self.acquire_exclusive(lua),
        }
    }

    /// Borrows the userdata immutably through a capability, whatever its exact type is.
    ///
    /// Fails with `UserDataDestructed` if the value was taken out, else with
    /// `UserDataDynMismatch` if the type of the value does not declare `capability`, else with
    /// `UserDataBorrowError` if the exclusive view is outstanding. A failure changes nothing.
    pub fn dyn_borrow<H>(&self, lua: &mut Lua<H>, capability: Capability) -> (r: Result<
        UserDataRef,
        Error,
    >)
        requires
            old(lua).wf(),
        ensures
            final(lua).wf(),
            self.shared_view_outcome(
                old(lua)@,
                self.dyn_error(old(lua)@, capability),
                r,
                final(lua)@,
            ),
    {
        match self.inspect_dyn(lua, capability) {
            Err(e) => Err(e),
            Ok(()) => self.acquire_shared(lua),
        }
    }

    /// Borrows the userdata mutably through a capability, whatever its exact type is.
    ///
    /// Fails with `UserDataDestructed` if the value was taken out, else with
    /// `UserDataDynMismatch` if the type of the value does not declare `capability`, else with
    /// `UserDataBorrowMutError` if any view is outstanding. A failure changes nothing.
    pub fn dyn_borrow_mut<H>(&self, lua: &mut Lua<H>, capability: Capability) -> (r: Result<
        UserDataRefMut<H>,
        Error,
    >)
        requires
            old(lua).wf(),
        ensures
            final(lua).wf(),
            self.exclusive_view_outcome(
                old(lua)@,
                self.dyn_error(old(lua)@, capability),
                r,
                final(lua)@,
            ),
    {
        match self.inspect_dyn(lua, capability) {
            Err(e) => Err(e),
            Ok(()) => self.acquire_exclusive(lua),
        }
    }

    /// Takes the value out of the userdata, which is destructed from then on: its user values
    /// are cleared and every later operation on it fails.
    ///
    /// The value is handed over only if it is of the type `ty` and no view of it is
    /// outstanding. Fails with `UserDataTypeMismatch`, `UserDataDestructed` or
    /// `UserDataBorrowMutError` otherwise, and then changes nothing.
    pub fn take<H>(&self, lua: &mut Lua<H>, ty: TypeToken) -> (r: Result<H, Error>)
        requires
            old(lua).wf(),
        ensures
            final(lua).wf(),
            self.take_outcome(old(lua)@, self.typed_error(old(lua)@, ty), r, final(lua)@),
    {
        match self.inspect(lua, ty) {
            Err(e) => Err(e),
            Ok(()) => self.extract(lua),
        }
    }

    /// Takes the value out of the userdata through a capability, whatever its exact type is.
    /// The userdata is destructed as by [`take`](Self::take).
    pub fn dyn_take<H>(&self, lua: &mut Lua<H>, capability: Capability) -> (r: Result<H, Error>)
        requires
            old(lua).wf(),
        ensures
            final(lua).wf(),
            self.take_outcome(
                old(lua)@,
                self.dyn_error(old(lua)@, capability),
                r,
                final(lua)@,
            ),
    {
        match self.inspect_dyn(lua, capability) {
            Err(e) => Err(e),
            Ok(()) => self.extract(lua),
        }
    }
}

impl AnyUserData {
    /// What cloning the value, or else taking it out, does, once `gate` says whether the
    /// handle may be used.
    pub open spec fn clone_or_take_outcome<H: HostValue>(
        &self,
        before: LuaView<H>,
        gate: Option<Error>,
        r: Result<H, Error>,
        after: LuaView<H>,
    ) -> bool {
        match gate {
            Some(e) => r == Err::<H, Error>(e) && after == before,
            None => {
                let cell = before.cell(self.place());
                if !cell.flag.admits_exclusive() {
                    r == Err::<H, Error>(Error::UserDataBorrowMutError) && after == before
                } else if cell.declares(Capability::Clone) {
                    &&& r matches Ok(c)
                    &&& call_ensures(H::clone_value, (&cell.value.unwrap(),), c)
                    &&& after == before
                } else {
                    &&& r == Ok::<H, Error>(cell.value.unwrap())
                    &&& after == self.destructed_in(before)
                }
            },
        }
    }

    fn clone_or_extract<H: HostValue>(&self, lua: &mut Lua<H>) -> (r: Result<H, Error>)
        requires
            old(lua).wf(),
            old(lua)@.is_live(self.place()),
        ensures
            final(lua).wf(),
            self.clone_or_take_outcome(old(lua)@, None, r, final(lua)@),
    {
        proof {
            lua.lemma_wf();
            assert(old(lua)@.userdata[self.place()].cell.unwrap().wf());
        }
        match lua.cell_ref(self.location).flag() {
            BorrowFlag::Free => {},
            _ => {
                return Err(Error::UserDataBorrowMutError);
            },
        }
        match lua.cell_ref(self.location).try_clone() {
            Some(cloned) => Ok(cloned),
            None => self.extract(lua),
        }
    }

    /// Clones the value inside the userdata if its type has a clone function, and otherwise
    /// takes the value out as [`take`](Self::take) does.
    ///
    /// Either way the value must be of the type `ty` and no view of it may be outstanding.
    /// When the value is cloned the userdata is left exactly as it was.
    pub fn clone_or_take<H: HostValue>(&self, lua: &mut Lua<H>, ty: TypeToken) -> (r: Result<
        H,
        Error,
    >)
        requires
            old(lua).wf(),
        ensures
            final(lua).wf(),
            self.clone_or_take_outcome(
                old(lua)@,
                self.typed_error(old(lua)@, ty),
                r,
                final(lua)@,
            ),
    {
        match self.inspect(lua, ty) {
            Err(e) => Err(e),
            Ok(()) => self.clone_or_extract(lua),
        }
    }

    /// Clones the value inside the userdata if its type has a clone function, and otherwise
    /// takes the value out, through a capability and whatever the exact type is.
    pub fn dyn_clone_or_take<H: HostValue>(&self, lua: &mut Lua<H>, capability: Capability) -> (r:
        Result<H, Error>)
        requires
            old(lua).wf(),
        ensures
            final(lua).wf(),
            self.clone_or_take_outcome(
                old(lua)@,
                self.dyn_error(old(lua)@, capability),
                r,
                final(lua)@,
            ),
    {
        match self.inspect_dyn(lua, capability) {
            Err(e) => Err(e),
            Ok(()) => self.clone_or_extract(lua),
        }
    }

    /// What converting the value does.
    pub open spec fn convert_outcome<H: HostValue>(
        &self,
        before: LuaView<H>,
        target: TypeToken,
        r: Result<H, Error>,
        after: LuaView<H>,
    ) -> bool {
        match self.dyn_error(before, Capability::Into(target)) {
            Some(e) => r == Err::<H, Error>(e) && after == before,
            None => {
                let cell = before.cell(self.place());
                if !cell.flag.admits_exclusive() {
                    r == Err::<H, Error>(Error::UserDataBorrowMutError) && after == before
                } else {
                    &&& r matches Ok(c)
                    &&& call_ensures(H::convert_into, (&cell.value.unwrap(), target), c)
                    &&& after == if cell.declares(Capability::Copy) {
                        before
                    } else {
                        self.destructed_in(before)
                    }
                }
            },
        }
    }

    /// Converts the value inside the userdata into the type that `target` identifies.
    ///
    /// The type of the value must declare the conversion, and no view of the value may be
    /// outstanding. The conversion consumes the value: the userdata is destructed as by
    /// [`take`](Self::take), unless the type of the value is declared trivially copyable.
    pub fn convert_into<H: HostValue>(&self, lua: &mut Lua<H>, target: TypeToken) -> (r: Result<
        H,
        Error,
    >)
        requires
            old(lua).wf(),
        ensures
            final(lua).wf(),
            self.convert_outcome(old(lua)@, target, r, final(lua)@),
    {
        match self.inspect_dyn(lua, Capability::Into(target)) {
            Err(e) => {
                return Err(e);
            },
            Ok(()) => {},
        }
        proof {
            lua.lemma_wf();
            assert(old(lua)@.userdata[self.place()].cell.unwrap().wf());
        }
        let cell = lua.cell_ref(self.location);
        match cell.flag() {
            BorrowFlag::Free => {},
            _ => {
                return Err(Error::UserDataBorrowMutError);
            },
        }
        let converted = match cell.get() {
            Some(value) => value.convert_into(target),
            None => vstd::pervasive::unreached(),
        };
        if !cell.table().is_copy() {
            let _ = lua.destruct(self.location);
        }
        Ok(converted)
    }

    /// For a userdata that describes a type: the identity of the type it describes.
    ///
    /// Fails with `UserDataDestructed` if the value was taken out, else with
    /// `UserDataDynMismatch` if the value does not describe a type, else with
    /// `UserDataBorrowError` if no shared view of the value can be had.
    pub fn meta_type_table<H: HostValue>(&self, lua: &Lua<H>) -> (r: Result<TypeToken, Error>)
        requires
            lua.wf(),
        ensures
            match self.dyn_error(lua@, Capability::MetaType) {
                Some(e) => r == Err::<TypeToken, Error>(e),
                None => if lua@.cell(self.place()).flag.admits_shared() {
                    &&& r matches Ok(subject)
                    &&& call_ensures(
                        H::subject,
                        (&lua@.cell(self.place()).value.unwrap(),),
                        subject,
                    )
                } else {
                    r == Err::<TypeToken, Error>(Error::UserDataBorrowError)
                },
            },
    {
        match self.inspect_dyn(lua, Capability::MetaType) {
            Err(e) => {
                return Err(e);
            },
            Ok(()) => {},
        }
        proof {
            lua.lemma_wf();
            assert(lua@.userdata[self.place()].cell.unwrap().wf());
        }
        let cell = lua.cell_ref(self.location);
        if !cell.flag().can_share() {
            return Err(Error::UserDataBorrowError);
        }
        match cell.get() {
            Some(value) => Ok(value.subject()),
            None => vstd::pervasive::unreached(),
        }
    }

    /// What writing a user value does.
    pub open spec fn set_user_value_outcome<H>(
        &self,
        before: LuaView<H>,
        n: int,
        v: Value,
        r: Result<(), Error>,
        after: LuaView<H>,
    ) -> bool {
        match self.raw_error(before) {
            Some(e) => r == Err::<(), Error>(e) && after == before,
            None => if !slot_in_range(n) {
                &&& r matches Err(Error::RuntimeError(message))
                &&& message@ == "user value index out of bounds"@
                &&& after == before
            } else {
                &&& r == Ok::<(), Error>(())
                &&& after == before.with_userdata(
                    self.place(),
                    UserDataView {
                        user_values: before.userdata[self.place()].user_values.insert(n, v),
                        spilled: before.userdata[self.place()].spilled || n >= 8,
                        ..before.userdata[self.place()]
                    },
                )
            },
        }
    }

    /// What reading a user value gives.
    pub open spec fn get_user_value_outcome<H>(
        &self,
        lua: LuaView<H>,
        n: int,
        r: Result<Value, Error>,
    ) -> bool {
        match self.raw_error(lua) {
            Some(e) => r == Err::<Value, Error>(e),
            None => if !slot_in_range(n) {
                &&& r matches Err(Error::RuntimeError(message))
                &&& message@ == "user value index out of bounds"@
            } else {
                r == Ok::<Value, Error>(lua.userdata[self.place()].user_values[n])
            },
        }
    }

    /// Sets the value associated to this userdata.
    ///
    /// This is the same as calling [`set_nth_user_value`](Self::set_nth_user_value) with `n`
    /// set to 1.
    pub fn set_user_value<H>(&self, lua: &mut Lua<H>, v: Value) -> (r: Result<(), Error>)
        requires
            old(lua).wf(),
        ensures
            final(lua).wf(),
            self.set_user_value_outcome(old(lua)@, 1, v, r, final(lua)@),
    {
        self.set_nth_user_value(lua, 1, v)
    }

    /// Sets the `n`th value associated to this userdata.
    ///
    /// The value may be any value of the runtime, and can be read back with
    /// [`get_nth_user_value`](Self::get_nth_user_value). `n` starts from 1 and can be up to
    /// 65535; another `n` is refused with a `RuntimeError`. The first seven slots are stored in
    /// the most efficient way; the overflow map for the others is made when one of them is
    /// first written.
    pub fn set_nth_user_value<H>(&self, lua: &mut Lua<H>, n: usize, v: Value) -> (r: Result<
        (),
        Error,
    >)
        requires
            old(lua).wf(),
        ensures
            final(lua).wf(),
            self.set_user_value_outcome(old(lua)@, n as int, v, r, final(lua)@),
    {
        match self.inspect_raw(lua) {
            Err(e) => {
                return Err(e);
            },
            Ok(()) => {},
        }
        if !is_slot_index(n) {
            return Err(Error::RuntimeError("user value index out of bounds".to_owned()));
        }
        lua.set_user_value_at(self.location, n, v);
        Ok(())
    }

    /// Returns the value associated to this userdata by
    /// [`set_user_value`](Self::set_user_value).
    ///
    /// This is the same as calling [`get_nth_user_value`](Self::get_nth_user_value) with `n`
    /// set to 1.
    pub fn get_user_value<H>(&self, lua: &Lua<H>) -> (r: Result<Value, Error>)
        requires
            lua.wf(),
        ensures
            self.get_user_value_outcome(lua@, 1, r),
    {
        self.get_nth_user_value(lua, 1)
    }

    /// Returns the `n`th value associated to this userdata by
    /// [`set_nth_user_value`](Self::set_nth_user_value). A slot that was never set holds `Nil`.
    ///
    /// `n` starts from 1 and can be up to 65535; another `n` is refused with a `RuntimeError`.
    pub fn get_nth_user_value<H>(&self, lua: &Lua<H>, n: usize) -> (r: Result<Value, Error>)
        requires
            lua.wf(),
        ensures
            self.get_user_value_outcome(lua@, n as int, r),
    {
        match self.inspect_raw(lua) {
            Err(e) => {
                return Err(e);
            },
            Ok(()) => {},
        }
        if !is_slot_index(n) {
            return Err(Error::RuntimeError("user value index out of bounds".to_owned()));
        }
        Ok(lua.user_value_at(self.location, n))
    }

    fn get_raw_metatable<H>(&self, lua: &Lua<H>) -> (r: Result<usize, Error>)
        requires
            lua.wf(),
        ensures
            match self.raw_error(lua@) {
                Some(e) => r == Err::<usize, Error>(e),
                None => r matches Ok(index) && index == lua@.userdata[self.place()].metatable
                    && index < lua@.metatables.len(),
            },
    {
        match self.inspect_raw(lua) {
            Err(e) => Err(e),
            Ok(()) => Ok(lua.metatable_of(self.location)),
        }
    }

    /// Returns the metatable of this userdata.
    ///
    /// The metatable is shared among all userdata of the same type. Fails with
    /// `UserDataDestructed` if the value was taken out, and with `UserDataTypeMismatch` if the
    /// handle names no userdata.
    pub fn get_metatable<H>(&self, lua: &Lua<H>) -> (r: Result<UserDataMetatable, Error>)
        requires
            lua.wf(),
        ensures
            match self.raw_error(lua@) {
                Some(e) => r == Err::<UserDataMetatable, Error>(e),
                None => r matches Ok(metatable) && metatable.index()
                    == lua@.userdata[self.place()].metatable && metatable.index()
                    < lua@.metatables.len(),
            },
    {
        match self.get_raw_metatable(lua) {
            Err(e) => Err(e),
            Ok(index) => Ok(UserDataMetatable::at(index)),
        }
    }

    /// What comparing two userdata gives, where `call_eq` runs an equality operator of the
    /// runtime on the two.
    pub open spec fn equals_outcome<H, F: FnOnce(Value, AnyUserData, AnyUserData) -> Result<
        bool,
        Error,
    >>(&self, lua: LuaView<H>, other: AnyUserData, call_eq: F, r: Result<bool, Error>) -> bool {
        if self.place() == other.place() {
            r == Ok::<bool, Error>(true)
        } else if !lua.has(self.place()) || !lua.has(other.place()) {
            r == Err::<bool, Error>(Error::UserDataTypeMismatch)
        } else if !lua.is_live(self.place()) || !lua.is_live(other.place()) {
            r == Ok::<bool, Error>(false)
        } else if lua.userdata[self.place()].metatable != lua.userdata[other.place()].metatable {
            r == Ok::<bool, Error>(false)
        } else {
            let metatable = lua.metatables[lua.userdata[self.place()].metatable];
            if metatable.contains_key("__eq"@) {
                call_ensures(call_eq, (metatable["__eq"@], *self, other), r)
            } else {
                r == Ok::<bool, Error>(false)
            }
        }
    }

    /// Compares two userdata.
    ///
    /// Two handles to the same userdata are equal. Two different userdata are equal only if
    /// they are of the same type, this type's metatable has an equality operator, and the
    /// operator says so; `call_eq` is what runs the operator. A destructed userdata is equal to
    /// itself only. The comparison never fails for two handles that name userdata, whatever
    /// their state.
    pub fn equals<H, F: FnOnce(Value, AnyUserData, AnyUserData) -> Result<bool, Error>>(
        &self,
        lua: &Lua<H>,
        other: &AnyUserData,
        call_eq: F,
    ) -> (r: Result<bool, Error>)
        requires
            lua.wf(),
            forall|operator: Value| call_requires(call_eq, (operator, *self, *other)),
        ensures
            self.equals_outcome(lua@, *other, call_eq, r),
    {
        if self.location == other.location {
            return Ok(true);
        }
        let mine = match lua.probe(self.location) {
            Probe::Missing => {
                return Err(Error::UserDataTypeMismatch);
            },
            Probe::Destructed => None,
            Probe::Live => Some(lua.metatable_of(self.location)),
        };
        let theirs = match lua.probe(other.location) {
            Probe::Missing => {
                return Err(Error::UserDataTypeMismatch);
            },
            Probe::Destructed => None,
            Probe::Live => Some(lua.metatable_of(other.location)),
        };
        match (mine, theirs) {
            (Some(a), Some(b)) => {
                if a != b {
                    return Ok(false);
                }
                let metatable = lua.metatable_ref(a);
                let operator = metatable.raw_get("__eq");
                proof {
                    metatable.lemma_no_nil();
                }
                if operator.is_nil() {
                    Ok(false)
                } else {
                    call_eq(operator, *self, *other)
                }
            },
            _ => Ok(false),
        }
    }

    /// The value to serialize for this userdata.
    ///
    /// Fails with `UserDataDynMismatch` if the type of the value does not declare that it can
    /// be serialized, and with `UserDataBorrowError` if no shared view of the value can be
    /// had.
    pub fn serializable<'a, H>(&self, lua: &'a Lua<H>) -> (r: Result<&'a H, Error>)
        requires
            lua.wf(),
        ensures
            match self.dyn_error(lua@, Capability::Serialize) {
                Some(e) => r == Err::<&H, Error>(e),
                None => if lua@.cell(self.place()).flag.admits_shared() {
                    r matches Ok(value) && *value == lua@.cell(self.place()).value.unwrap()
                } else {
                    r == Err::<&H, Error>(Error::UserDataBorrowError)
                },
            },
    {
        match self.inspect_dyn(lua, Capability::Serialize) {
            Err(e) => {
                return Err(e);
            },
            Ok(()) => {},
        }
        proof {
            lua.lemma_wf();
            assert(lua@.userdata[self.place()].cell.unwrap().wf());
        }
        let cell = lua.cell_ref(self.location);
        if !cell.flag().can_share() {
            return Err(Error::UserDataBorrowError);
        }
        match cell.get() {
            Some(value) => Ok(value),
            None => vstd::pervasive::unreached(),
        }
    }
}

/// Cloning a host value into a new userdata.
pub trait TryCloneToUserDataExt: Sized {
    /// Clones the value with the clone function of its type, and moves the clone into a new
    /// userdata of the type that `id` identifies.
    fn try_clone_to_user_data(&self, lua: &mut Lua<Self>, id: TypeToken) -> (r: Result<
        AnyUserData,
        Error,
    >)
        requires
            old(lua).wf(),
        ensures
            final(lua).wf(),
    ;
}

/// What cloning a value into a new userdata does.
pub open spec fn clone_to_user_data_outcome<H: HostValue>(
    value: H,
    before: LuaView<H>,
    id: TypeToken,
    r: Result<AnyUserData, Error>,
    after: LuaView<H>,
) -> bool {
    match before.type_index(id) {
        None => r == Err::<AnyUserData, Error>(Error::UserDataDynMismatch) && after == before,
        Some(t) => if !before.types[t].capabilities.contains(Capability::Clone)
            || !before.types[t].capabilities.contains(Capability::Send) {
            r == Err::<AnyUserData, Error>(Error::UserDataDynMismatch) && after == before
        } else {
            exists|cloned: H|
                {
                    &&& call_ensures(H::clone_value, (&value,), cloned)
                    &&& r matches Ok(handle)
                    &&& handle.place() == before.userdata.len()
                    &&& after == (LuaView {
                        userdata: before.userdata.push(
                            UserDataView {
                                cell: Some(
                                    UserDataCellView {
                                        table: before.types[t],
                                        flag: BorrowFlag::Free,
                                        value: Some(cloned),
                                    },
                                ),
                                user_values: no_user_values(),
                                metatable: t,
                                spilled: false,
                            },
                        ),
                        ..before
                    })
                }
        },
    }
}

impl<H: HostValue> TryCloneToUserDataExt for H {
    /// The type must be registered and must declare both a clone function and that its values
    /// may be moved to another thread; otherwise the call fails with `UserDataDynMismatch` and
    /// changes nothing.
    fn try_clone_to_user_data(&self, lua: &mut Lua<H>, id: TypeToken) -> (r: Result<
        AnyUserData,
        Error,
    >)
        ensures
            clone_to_user_data_outcome(*self, old(lua)@, id, r, final(lua)@),
    {
        let declared = match lua.type_table_of(id) {
            Some(table) => table.has_clone() && table.is(Capability::Send),
            None => false,
        };
        if !declared {
            return Err(Error::UserDataDynMismatch);
        }
        let cloned = self.clone_value();
        lua.create_userdata(id, cloned)
    }
}

/// Once the value of a userdata was taken out, every operation on its handle fails with
/// `UserDataDestructed` and changes nothing: borrowing, taking, cloning or converting the
/// value, by type or through a capability, and reading or writing a user value. Only the type
/// probe, which answers `false`, and the comparisons do not fail.
pub proof fn lemma_destructed_refuses<H: HostValue>(
    handle: AnyUserData,
    lua: LuaView<H>,
    ty: TypeToken,
    capability: Capability,
    n: int,
    v: Value,
)
    requires
        lua.is_destructed(handle.place()),
    ensures
        handle.raw_error(lua) == Some(Error::UserDataDestructed),
        handle.typed_error(lua, ty) == Some(Error::UserDataDestructed),
        handle.dyn_error(lua, capability) == Some(Error::UserDataDestructed),
        forall|r: Result<UserDataRef, Error>, after: LuaView<H>|
            handle.shared_view_outcome(lua, Some(Error::UserDataDestructed), r, after) ==> r
                == Err::<UserDataRef, Error>(Error::UserDataDestructed) && after == lua,
        forall|r: Result<UserDataRefMut<H>, Error>, after: LuaView<H>|
            handle.exclusive_view_outcome(lua, Some(Error::UserDataDestructed), r, after) ==> r
                == Err::<UserDataRefMut<H>, Error>(Error::UserDataDestructed) && after == lua,
        forall|r: Result<H, Error>, after: LuaView<H>|
            handle.take_outcome(lua, Some(Error::UserDataDestructed), r, after) ==> r == Err::<
                H,
                Error,
            >(Error::UserDataDestructed) && after == lua,
        forall|r: Result<H, Error>, after: LuaView<H>|
            handle.clone_or_take_outcome(lua, Some(Error::UserDataDestructed), r, after) ==> r
                == Err::<H, Error>(Error::UserDataDestructed) && after == lua,
        forall|target: TypeToken, r: Result<H, Error>, after: LuaView<H>|
            handle.convert_outcome(lua, target, r, after) ==> r == Err::<H, Error>(
                Error::UserDataDestructed,
            ) && after == lua,
        forall|r: Result<(), Error>, after: LuaView<H>|
            handle.set_user_value_outcome(lua, n, v, r, after) ==> r == Err::<(), Error>(
                Error::UserDataDestructed,
            ) && after == lua,
        forall|r: Result<Value, Error>|
            handle.get_user_value_outcome(lua, n, r) ==> r == Err::<Value, Error>(
                Error::UserDataDestructed,
            ),
{
}

/// Taking a value out leaves a destructed userdata: the value handed over is the one that
/// was stored, the user values are cleared, and nothing else in the storage changes.
pub proof fn lemma_take_destructs<H>(
    handle: AnyUserData,
    before: LuaView<H>,
    gate: Option<Error>,
    value: H,
    after: LuaView<H>,
)
    requires
        before.is_live(handle.place()),
        handle.take_outcome(before, gate, Ok(value), after),
    ensures
        gate is None,
        value == before.cell(handle.place()).value.unwrap(),
        after.is_destructed(handle.place()),
        after.userdata[handle.place()].user_values == no_user_values(),
        after.userdata.len() == before.userdata.len(),
        forall|p: int|
            0 <= p < before.userdata.len() && p != handle.place() ==> after.userdata[p]
                == before.userdata[p],
        after.types == before.types,
        after.metatables == before.metatables,
{
}

/// Cloning or taking never destructs a userdata whose type has a clone function, and for a
/// type without one it does exactly what taking does.
pub proof fn lemma_clone_or_take<H: HostValue>(
    handle: AnyUserData,
    before: LuaView<H>,
    gate: Option<Error>,
    r: Result<H, Error>,
    after: LuaView<H>,
)
    requires
        before.is_live(handle.place()),
        handle.clone_or_take_outcome(before, gate, r, after),
    ensures
        before.cell(handle.place()).declares(Capability::Clone) ==> after == before,
        !before.cell(handle.place()).declares(Capability::Clone) ==> handle.take_outcome(
            before,
            gate,
            r,
            after,
        ),
{
}

/// A user value that was set is the value that is read back from the same slot, and a write
/// to one slot changes no other slot.
pub proof fn lemma_user_value_round_trip<H>(
    handle: AnyUserData,
    before: LuaView<H>,
    n: int,
    v: Value,
    after: LuaView<H>,
    m: int,
    got: Result<Value, Error>,
)
    requires
        slot_in_range(n),
        slot_in_range(m),
        before.wf(),
        handle.set_user_value_outcome(before, n, v, Ok(()), after),
        handle.get_user_value_outcome(after, m, got),
    ensures
        m == n ==> got == Ok::<Value, Error>(v),
        m != n ==> got == Ok::<Value, Error>(before.userdata[handle.place()].user_values[m]),
{
}

/// Reading a slot of a live userdata never fails, and a slot that was never set reads as
/// `Nil`.
pub proof fn lemma_unset_user_value_is_nil<H>(
    handle: AnyUserData,
    lua: LuaView<H>,
    n: int,
    got: Result<Value, Error>,
)
    requires
        slot_in_range(n),
        lua.is_live(handle.place()),
        handle.get_user_value_outcome(lua, n, got),
    ensures
        got is Ok,
        lua.userdata[handle.place()].user_values == no_user_values() ==> got
            == Ok::<Value, Error>(Value::Nil),
{
}

} // verus!
