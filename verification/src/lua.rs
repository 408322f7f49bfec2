use vstd::prelude::*;
use crate::borrow::{BorrowFlag, BorrowOp};
use crate::cell::{UserDataCell, UserDataCellView};
use crate::error::Error;
use crate::table::Table;
use crate::types::{TypeTable, TypeTableView, TypeToken};
use crate::userdata::AnyUserData;
use crate::uservalues::{no_user_values, slot_in_range, UserValues, USER_VALUE_MAXSLOT};
use crate::value::Value;

verus! {

/// One userdata in the runtime's storage.
#[derive(Debug)]
struct UserDataSlot<H> {
    cell: Option<UserDataCell<H>>,
    user_values: UserValues,
    metatable: usize,
}

/// The part of the scripting runtime that holds userdata: the registered types with their
/// metatables, and the storage that handles point into.
///
/// The storage only grows, so a handle that names a userdata keeps naming it. A userdata
/// whose value was taken out stays in place as a destructed userdata.
#[derive(Debug)]
pub struct Lua<H> {
    types: Vec<TypeTable>,
    metatables: Vec<Table>,
    userdata: Vec<UserDataSlot<H>>,
}

/// The mathematical content of one userdata.
pub struct UserDataView<H> {
    /// The cell that holds the value; `None` once the userdata is destructed.
    pub cell: Option<UserDataCellView<H>>,
    /// The user values attached to the userdata.
    pub user_values: Map<int, Value>,
    /// Which registered type the userdata was made for.
    pub metatable: int,
    /// Whether the overflow map for the user values beyond the inline slots has been made.
    pub spilled: bool,
}

/// The mathematical content of a [`Lua`].
pub struct LuaView<H> {
    /// The tables of the registered types, in the order of registration.
    pub types: Seq<TypeTableView>,
    /// The metatable of each registered type.
    pub metatables: Seq<Map<Seq<char>, Value>>,
    /// The userdata, each at the place that its handles name.
    pub userdata: Seq<UserDataView<H>>,
}

impl<H> UserDataView<H> {
    /// Whether the value is still there.
    pub open spec fn is_live(&self) -> bool {
        self.cell is Some
    }

    /// The userdata after its value was taken out: no cell, and no user values.
    pub open spec fn destructed(self) -> UserDataView<H> {
        UserDataView { cell: None, user_values: no_user_values(), spilled: false, ..self }
    }

    /// What holds of every userdata in a storage with the registered types `types`: it was
    /// made for one of them, its cell is well formed and carries the table of that type, and
    /// once it is destructed it has no user values and no overflow map.
    pub open spec fn wf_in(&self, types: Seq<TypeTableView>) -> bool {
        &&& 0 <= self.metatable < types.len()
        &&& self.user_values.dom() == no_user_values().dom()
        &&& self.cell matches Some(c) ==> c.wf() && c.table == types[self.metatable]
        &&& self.cell is None ==> self.user_values == no_user_values() && !self.spilled
    }

    /// The userdata with another cell content.
    pub open spec fn with_cell(self, cell: UserDataCellView<H>) -> UserDataView<H> {
        UserDataView { cell: Some(cell), ..self }
    }
}

impl<H> LuaView<H> {
    /// Whether `place` holds a userdata, live or destructed.
    pub open spec fn has(&self, place: int) -> bool {
        0 <= place < self.userdata.len()
    }

    /// Whether `place` holds a userdata whose value is still there.
    pub open spec fn is_live(&self, place: int) -> bool {
        self.has(place) && self.userdata[place].is_live()
    }

    /// Whether `place` holds a userdata whose value was taken out.
    pub open spec fn is_destructed(&self, place: int) -> bool {
        self.has(place) && !self.userdata[place].is_live()
    }

    /// The cell of the live userdata at `place`.
    pub open spec fn cell(&self, place: int) -> UserDataCellView<H>
        recommends
            self.is_live(place),
    {
        self.userdata[place].cell.unwrap()
    }

    /// The storage with the userdata at `place` replaced.
    pub open spec fn with_userdata(self, place: int, userdata: UserDataView<H>) -> LuaView<H> {
        LuaView { userdata: self.userdata.update(place, userdata), ..self }
    }

    /// The storage with the cell at `place` replaced.
    pub open spec fn with_cell(self, place: int, cell: UserDataCellView<H>) -> LuaView<H> {
        self.with_userdata(place, self.userdata[place].with_cell(cell))
    }

    /// The storage with the metatable of a type replaced.
    pub open spec fn with_metatable(self, index: int, metatable: Map<Seq<char>, Value>) -> LuaView<
        H,
    > {
        LuaView { metatables: self.metatables.update(index, metatable), ..self }
    }

    /// The position at which a type is registered, if it is.
    pub open spec fn type_index(&self, id: TypeToken) -> Option<int> {
        if exists|t: int| 0 <= t < self.types.len() && self.types[t].id == id {
            Some(choose|t: int| 0 <= t < self.types.len() && self.types[t].id == id)
        } else {
            None
        }
    }

    /// In a well-formed storage a type is registered at the one position that holds its
    /// identity.
    pub proof fn lemma_type_index(self, id: TypeToken, t: int)
        requires
            self.wf(),
            0 <= t < self.types.len(),
            self.types[t].id == id,
        ensures
            self.type_index(id) == Some(t),
    {
        let c = choose|c: int| 0 <= c < self.types.len() && self.types[c].id == id;
        if c < t {
            assert(self.types[c].id != self.types[t].id);
        }
        if t < c {
            assert(self.types[t].id != self.types[c].id);
        }
    }

    /// What holds of every storage: each type is registered once and has a metatable; every
    /// cell is well formed and carries the table of its type; a destructed userdata has no
    /// user values.
    pub open spec fn wf(&self) -> bool {
        &&& self.types.len() == self.metatables.len()
        &&& forall|s: int, t: int|
            0 <= s < t < self.types.len() ==> self.types[s].id != self.types[t].id
        &&& forall|p: int| 0 <= p < self.userdata.len() ==> (#[trigger] self.userdata[p]).wf_in(self.types)
    }
}

impl<H> View for UserDataSlot<H> {
    type V = UserDataView<H>;

    closed spec fn view(&self) -> UserDataView<H> {
        UserDataView {
            cell: match self.cell {
                Some(c) => Some(c@),
                None => None,
            },
            user_values: self.user_values@,
            metatable: self.metatable as int,
            spilled: self.user_values.spilled(),
        }
    }
}

impl<H> View for Lua<H> {
    type V = LuaView<H>;

    closed spec fn view(&self) -> LuaView<H> {
        LuaView {
            types: Seq::new(self.types@.len(), |t: int| self.types@[t]@),
            metatables: Seq::new(self.metatables@.len(), |t: int| self.metatables@[t]@),
            userdata: Seq::new(self.userdata@.len(), |p: int| self.userdata@[p]@),
        }
    }
}

impl<H> Lua<H> {
    /// The storage is well formed, and so is the data that stands for it.
    pub closed spec fn wf(&self) -> bool {
        &&& self@.wf()
        &&& forall|t: int| 0 <= t < self.metatables@.len() ==> (#[trigger] self.metatables@[t]).wf()
        &&& forall|p: int|
            0 <= p < self.userdata@.len() ==> (#[trigger] self.userdata@[p]).user_values.wf()
    }

    /// A well-formed storage has well-formed content.
    pub proof fn lemma_wf(&self)
        requires
            self.wf(),
        ensures
            self@.wf(),
    {
    }

    /// A change of the storage that keeps the registered types, or adds to them, and that
    /// leaves every userdata as it was but the one at `place`, keeps every userdata well
    /// formed if the one at `place` is.
    proof fn lemma_userdata_kept(before: LuaView<H>, after: LuaView<H>, place: int)
        requires
            before.wf(),
            before.types.len() <= after.types.len(),
            forall|t: int| 0 <= t < before.types.len() ==> after.types[t] == before.types[t],
            forall|p: int|
                0 <= p < after.userdata.len() && p != place ==> p < before.userdata.len()
                    && after.userdata[p] == before.userdata[p],
            0 <= place < after.userdata.len() ==> after.userdata[place].wf_in(after.types),
        ensures
            forall|p: int|
                0 <= p < after.userdata.len() ==> (#[trigger] after.userdata[p]).wf_in(after.types),
    {
        assert forall|p: int| 0 <= p < after.userdata.len() implies (
        #[trigger] after.userdata[p]).wf_in(after.types) by {
            if p != place {
                assert(before.userdata[p].wf_in(before.types));
            }
        }
    }

    /// No metatable has `Nil` stored under a name: a name is present exactly when a value
    /// other than `Nil` is stored under it.
    pub proof fn lemma_metatables_hold_no_nil(&self)
        requires
            self.wf(),
        ensures
            forall|t: int, name: Seq<char>|
                0 <= t < self@.metatables.len() && (#[trigger] self@.metatables[t].contains_key(
                    name,
                )) ==> self@.metatables[t][name] != Value::Nil,
    {
        assert forall|t: int, name: Seq<char>|
            0 <= t < self@.metatables.len() && (#[trigger] self@.metatables[t].contains_key(
                name,
            )) implies self@.metatables[t][name] != Value::Nil by {
            self.metatables@[t].lemma_no_nil();
        }
    }

    /// A runtime with no type registered and no userdata.
    pub fn new() -> (r: Lua<H>)
        ensures
            r.wf(),
            r@.types.len() == 0,
            r@.metatables.len() == 0,
            r@.userdata.len() == 0,
            forall|id: TypeToken| r@.type_index(id) is None,
    {
        Lua { types: Vec::new(), metatables: Vec::new(), userdata: Vec::new() }
    }

    /// The number of userdata in the storage, destructed ones included.
    pub fn len(&self) -> (r: usize)
        ensures
            r == self@.userdata.len(),
    {
        self.userdata.len()
    }

    /// Finds the position at which a type is registered.
    pub fn find_type(&self, id: TypeToken) -> (r: Option<usize>)
        requires
            self.wf(),
        ensures
            r matches Some(t) ==> t < self@.types.len() && self@.types[t as int].id == id,
            r is None ==> forall|t: int| 0 <= t < self@.types.len() ==> self@.types[t].id != id,
            self@.type_index(id) == match r {
                Some(t) => Some(t as int),
                None => None::<int>,
            },
    {
        let mut t: usize = 0;
        while t < self.types.len()
            invariant
                self.wf(),
                t <= self.types@.len(),
                self@.types.len() == self.types@.len(),
                forall|s: int| 0 <= s < t ==> self@.types[s].id != id,
            decreases self.types@.len() - t,
        {
            if self.types[t].id() == id {
                proof {
                    assert(self@.types[t as int].id == id);
                    let c = choose|c: int| 0 <= c < self@.types.len() && self@.types[c].id == id;
                    assert(c == t) by {
                        if c < t {
                            assert(self@.types[c].id != self@.types[t as int].id);
                        }
                        if t < c {
                            assert(self@.types[t as int].id != self@.types[c].id);
                        }
                    }
                }
                return Some(t);
            }
            t += 1;
        }
        None
    }

    /// The table of the registered type with the identity `id`.
    pub fn type_table_of(&self, id: TypeToken) -> (r: Option<&TypeTable>)
        requires
            self.wf(),
        ensures
            r.is_some() == self@.type_index(id).is_some(),
            r matches Some(table) ==> table@ == self@.types[self@.type_index(id).unwrap()],
    {
        match self.find_type(id) {
            Some(t) => Some(&self.types[t]),
            None => None,
        }
    }

    /// Registers a type with its metatable, once.
    ///
    /// A type is known by the identity in its table. The first registration stores the table
    /// and the metatable and returns `true`. A later one for the same identity changes
    /// nothing and returns `false`: what is registered is never replaced.
    pub fn register_type(&mut self, table: TypeTable, metatable: Table) -> (r: bool)
        requires
            old(self).wf(),
            metatable.wf(),
        ensures
            final(self).wf(),
            r == (old(self)@.type_index(table@.id) is None),
            r ==> final(self)@ == (LuaView {
                types: old(self)@.types.push(table@),
                metatables: old(self)@.metatables.push(metatable@),
                ..old(self)@
            }),
            !r ==> final(self)@ == old(self)@,
            r ==> final(self)@.type_index(table@.id) == Some(old(self)@.types.len() as int),
            forall|id: TypeToken|
                id != table@.id ==> final(self)@.type_index(id) == old(self)@.type_index(id),
    {
        match self.find_type(table.id()) {
            Some(_) => false,
            None => {
                let ghost added = table@;
                self.types.push(table);
                self.metatables.push(metatable);
                proof {
                    assert(self@.types =~= old(self)@.types.push(table@));
                    assert(self@.metatables =~= old(self)@.metatables.push(metatable@));
                    assert(self@.userdata =~= old(self)@.userdata);
                    Self::lemma_userdata_kept(old(self)@, self@, -1);
                    let n = old(self)@.types.len() as int;
                    assert(self@.types[n].id == added.id);
                    self@.lemma_type_index(added.id, n);
                    assert forall|id: TypeToken| id != added.id implies self@.type_index(id)
                        == old(self)@.type_index(id) by {
                        match old(self)@.type_index(id) {
                            Some(t) => {
                                assert(self@.types[t] == old(self)@.types[t]);
                                self@.lemma_type_index(id, t);
                            },
                            None => {
                                if self@.type_index(id) is Some {
                                    let t = self@.type_index(id).unwrap();
                                    assert(t < n);
                                    assert(old(self)@.types[t].id == id);
                                }
                            },
                        }
                    }
                }
                true
            },
        }
    }

    /// Moves a host value of a registered type into the storage and returns the handle to the
    /// new userdata.
    ///
    /// Fails with `UserDataTypeMismatch`, and changes nothing, if no type with the identity
    /// `id` is registered.
    pub fn create_userdata(&mut self, id: TypeToken, data: H) -> (r: Result<AnyUserData, Error>)
        requires
            old(self).wf(),
        ensures
            final(self).wf(),
            old(self)@.type_index(id) is None ==> r == Err::<AnyUserData, Error>(
                Error::UserDataTypeMismatch,
            ) && final(self)@ == old(self)@,
            old(self)@.type_index(id) matches Some(t) ==> {
                &&& r matches Ok(handle)
                &&& handle.place() == old(self)@.userdata.len()
                &&& final(self)@ == (LuaView {
                    userdata: old(self)@.userdata.push(
                        UserDataView {
                            cell: Some(
                                UserDataCellView {
                                    table: old(self)@.types[t],
                                    flag: BorrowFlag::Free,
                                    value: Some(data),
                                },
                            ),
                            user_values: no_user_values(),
                            metatable: t,
                            spilled: false,
                        },
                    ),
                    ..old(self)@
                })
            },
    {
        match self.find_type(id) {
            None => Err(Error::UserDataTypeMismatch),
            Some(t) => {
                let table = self.types[t].duplicate();
                let location = self.userdata.len();
                let slot = UserDataSlot {
                    cell: Some(UserDataCell::new(table, data)),
                    user_values: UserValues::new(),
                    metatable: t,
                };
                self.userdata.push(slot);
                proof {
                    assert(self@.types =~= old(self)@.types);
                    assert(self@.metatables =~= old(self)@.metatables);
                    assert(self@.userdata =~= old(self)@.userdata.push(slot@));
                    Self::lemma_userdata_kept(old(self)@, self@, old(self)@.userdata.len() as int);
                }
                Ok(AnyUserData::at(location))
            },
        }
    }
}

/// What a place in the storage holds.
#[derive(Clone, Copy, Debug, PartialEq, Eq, Structural)]
pub(crate) enum Probe {
    /// No userdata is at the place.
    Missing,
    /// The userdata at the place had its value taken out.
    Destructed,
    /// The userdata at the place has its value.
    Live,
}

impl<H> Lua<H> {
    /// Says what `place` holds.
    pub(crate) fn probe(&self, place: usize) -> (r: Probe)
        ensures
            (r == Probe::Missing) == !self@.has(place as int),
            (r == Probe::Destructed) == self@.is_destructed(place as int),
            (r == Probe::Live) == self@.is_live(place as int),
    {
        if place >= self.userdata.len() {
            Probe::Missing
        } else if self.userdata[place].cell.is_none() {
            Probe::Destructed
        } else {
            Probe::Live
        }
    }

    /// The cell of a live userdata.
    pub(crate) fn cell_ref(&self, place: usize) -> (r: &UserDataCell<H>)
        requires
            self@.is_live(place as int),
        ensures
            r@ == self@.cell(place as int),
    {
        match &self.userdata[place].cell {
            Some(c) => c,
            None => vstd::pervasive::unreached(),
        }
    }

    /// Asks the cell of a live userdata for a shared view.
    pub(crate) fn cell_try_borrow(&mut self, place: usize) -> (r: Result<(), Error>)
        requires
            old(self).wf(),
            old(self)@.is_live(place as int),
        ensures
            final(self).wf(),
            final(self)@ == old(self)@.with_cell(
                place as int,
                old(self)@.cell(place as int).stepped(BorrowOp::Borrow),
            ),
            old(self)@.cell(place as int).flag.admits_shared() ==> r == Ok::<(), Error>(()),
            !old(self)@.cell(place as int).flag.admits_shared() ==> r == Err::<(), Error>(
                Error::UserDataBorrowError,
            ) && final(self)@ == old(self)@,
    {
        let r = match &mut self.userdata[place].cell {
            Some(c) => c.try_borrow(),
            None => Err(Error::UserDataBorrowError),
        };
        proof {
            self.lemma_cell_changed(*old(self), place as int);
        }
        r
    }

    /// Gives a shared view of a live userdata back.
    pub(crate) fn cell_release_borrow(&mut self, place: usize) -> (r: bool)
        requires
            old(self).wf(),
            old(self)@.is_live(place as int),
        ensures
            final(self).wf(),
            final(self)@ == old(self)@.with_cell(
                place as int,
                old(self)@.cell(place as int).stepped(BorrowOp::Release),
            ),
            r == (old(self)@.cell(place as int).flag is Shared),
    {
        let r = match &mut self.userdata[place].cell {
            Some(c) => c.release_borrow(),
            None => false,
        };
        proof {
            self.lemma_cell_changed(*old(self), place as int);
        }
        r
    }

    /// Asks the cell of a live userdata for the exclusive view.
    pub(crate) fn cell_try_borrow_mut(&mut self, place: usize) -> (r: Result<H, Error>)
        requires
            old(self).wf(),
            old(self)@.is_live(place as int),
        ensures
            final(self).wf(),
            old(self)@.cell(place as int).flag.admits_exclusive() ==> r == Ok::<H, Error>(
                old(self)@.cell(place as int).value.unwrap(),
            ) && final(self)@ == old(self)@.with_cell(
                place as int,
                UserDataCellView {
                    flag: BorrowFlag::Exclusive,
                    value: None,
                    ..old(self)@.cell(place as int)
                },
            ),
            !old(self)@.cell(place as int).flag.admits_exclusive() ==> r == Err::<H, Error>(
                Error::UserDataBorrowMutError,
            ) && final(self)@ == old(self)@,
    {
        let r = match &mut self.userdata[place].cell {
            Some(c) => c.try_borrow_mut(),
            None => Err(Error::UserDataBorrowMutError),
        };
        proof {
            self.lemma_cell_changed(*old(self), place as int);
        }
        r
    }

    /// Gives the exclusive view of a live userdata back, and with it the value.
    pub(crate) fn cell_release_borrow_mut(&mut self, place: usize, value: H) -> (r: Result<(), H>)
        requires
            old(self).wf(),
            old(self)@.is_live(place as int),
        ensures
            final(self).wf(),
            old(self)@.cell(place as int).flag is Exclusive ==> r == Ok::<(), H>(())
                && final(self)@ == old(self)@.with_cell(
                place as int,
                UserDataCellView {
                    flag: BorrowFlag::Free,
                    value: Some(value),
                    ..old(self)@.cell(place as int)
                },
            ),
            !(old(self)@.cell(place as int).flag is Exclusive) ==> r == Err::<(), H>(value)
                && final(self)@ == old(self)@,
    {
        let r = match &mut self.userdata[place].cell {
            Some(c) => c.release_borrow_mut(value),
            None => Err(value),
        };
        proof {
            self.lemma_cell_changed(*old(self), place as int);
        }
        r
    }

    /// Takes the cell out of a live userdata and clears its user values: the userdata is
    /// destructed from then on.
    pub(crate) fn destruct(&mut self, place: usize) -> (r: UserDataCell<H>)
        requires
            old(self).wf(),
            old(self)@.is_live(place as int),
        ensures
            final(self).wf(),
            r@ == old(self)@.cell(place as int),
            final(self)@ == old(self)@.with_userdata(
                place as int,
                old(self)@.userdata[place as int].destructed(),
            ),
    {
        let taken = self.userdata[place].cell.take();
        self.userdata[place].user_values.clear();
        proof {
            assert(self@.types =~= old(self)@.types);
            assert(self@.metatables =~= old(self)@.metatables);
            assert(self@.userdata =~= old(self)@.userdata.update(
                place as int,
                old(self)@.userdata[place as int].destructed(),
            ));
            Self::lemma_userdata_kept(old(self)@, self@, place as int);
        }
        match taken {
            Some(c) => c,
            None => vstd::pervasive::unreached(),
        }
    }

    /// The user value in slot `n` of the userdata at `place`.
    pub(crate) fn user_value_at(&self, place: usize, n: usize) -> (r: Value)
        requires
            self.wf(),
            self@.has(place as int),
            slot_in_range(n as int),
        ensures
            r == self@.userdata[place as int].user_values[n as int],
    {
        self.userdata[place].user_values.get(n)
    }

    /// Puts `value` in slot `n` of the live userdata at `place`.
    pub(crate) fn set_user_value_at(&mut self, place: usize, n: usize, value: Value)
        requires
            old(self).wf(),
            old(self)@.is_live(place as int),
            slot_in_range(n as int),
        ensures
            final(self).wf(),
            final(self)@ == old(self)@.with_userdata(
                place as int,
                UserDataView {
                    user_values: old(self)@.userdata[place as int].user_values.insert(
                        n as int,
                        value,
                    ),
                    spilled: old(self)@.userdata[place as int].spilled || n
                        >= USER_VALUE_MAXSLOT,
                    ..old(self)@.userdata[place as int]
                },
            ),
    {
        self.userdata[place].user_values.set(n, value);
        proof {
            assert(self@.types =~= old(self)@.types);
            assert(self@.metatables =~= old(self)@.metatables);
            assert(self@.userdata =~= old(self)@.userdata.update(
                place as int,
                UserDataView {
                    user_values: old(self)@.userdata[place as int].user_values.insert(
                        n as int,
                        value,
                    ),
                    spilled: old(self)@.userdata[place as int].spilled || n
                        >= USER_VALUE_MAXSLOT,
                    ..old(self)@.userdata[place as int]
                },
            ));
            assert(old(self)@.userdata[place as int].wf_in(old(self)@.types));
            assert(old(self)@.userdata[place as int].user_values.dom() =~= old(
                self,
            )@.userdata[place as int].user_values.insert(n as int, value).dom());
            Self::lemma_userdata_kept(old(self)@, self@, place as int);
        }
    }

    /// Which registered type the userdata at `place` was made for.
    pub(crate) fn metatable_of(&self, place: usize) -> (r: usize)
        requires
            self.wf(),
            self@.has(place as int),
        ensures
            r == self@.userdata[place as int].metatable,
            r < self@.metatables.len(),
    {
        let r = self.userdata[place].metatable;
        proof {
            let u = self@.userdata[place as int];
            assert(0 <= u.metatable < self@.types.len());
        }
        r
    }

    /// The number of registered types, which is the number of metatables.
    pub(crate) fn metatable_count(&self) -> (r: usize)
        ensures
            r == self@.metatables.len(),
    {
        self.metatables.len()
    }

    /// The metatable of the type registered at `index`.
    pub(crate) fn metatable_ref(&self, index: usize) -> (r: &Table)
        requires
            self.wf(),
            index < self@.metatables.len(),
        ensures
            r.wf(),
            r@ == self@.metatables[index as int],
    {
        &self.metatables[index]
    }

    /// Stores `value` under `key` in the metatable of the type registered at `index`.
    pub(crate) fn metatable_set(&mut self, index: usize, key: &str, value: Value)
        requires
            old(self).wf(),
            index < old(self)@.metatables.len(),
        ensures
            final(self).wf(),
            value == Value::Nil ==> final(self)@ == old(self)@.with_metatable(
                index as int,
                old(self)@.metatables[index as int].remove(key@),
            ),
            value != Value::Nil ==> final(self)@ == old(self)@.with_metatable(
                index as int,
                old(self)@.metatables[index as int].insert(key@, value),
            ),
    {
        self.metatables[index].raw_set(key, value);
        proof {
            assert(self@.types =~= old(self)@.types);
            assert(self@.userdata =~= old(self)@.userdata);
            assert(self@.metatables =~= old(self)@.metatables.update(
                index as int,
                self.metatables@[index as int]@,
            ));
            Self::lemma_userdata_kept(old(self)@, self@, -1);
        }
    }

    /// If only the cell at `place` differs between `before` and `self`, and the new cell is
    /// well formed and kept its table, then the storage changed as `with_cell` says and is
    /// still well formed.
    proof fn lemma_cell_changed(&self, before: Lua<H>, place: int)
        requires
            before.wf(),
            before@.is_live(place),
            self.types == before.types,
            self.metatables == before.metatables,
            self.userdata@.len() == before.userdata@.len(),
            forall|p: int|
                0 <= p < self.userdata@.len() && p != place ==> self.userdata@[p]
                    == before.userdata@[p],
            self.userdata@[place].user_values == before.userdata@[place].user_values,
            self.userdata@[place].metatable == before.userdata@[place].metatable,
            self.userdata@[place].cell is Some,
            self.userdata@[place].cell.unwrap()@.wf(),
            self.userdata@[place].cell.unwrap()@.table == before@.cell(place).table,
        ensures
            self.wf(),
            self@ == before@.with_cell(place, self.userdata@[place].cell.unwrap()@),
            self.userdata@[place].cell.unwrap()@ == before@.cell(place) ==> self@ == before@,
    {
        if self.userdata@[place].cell.unwrap()@ == before@.cell(place) {
            assert(self@.userdata =~= before@.userdata);
        }
        assert(self@.types =~= before@.types);
        assert(self@.metatables =~= before@.metatables);
        assert(self@.userdata =~= before@.userdata.update(
            place,
            before@.userdata[place].with_cell(self.userdata@[place].cell.unwrap()@),
        ));
        assert(before@.userdata[place].wf_in(before@.types));
        Self::lemma_userdata_kept(before@, self@, place);
    }
}

} // verus!
