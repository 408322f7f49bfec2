use vstd::prelude::*;
use vstd::string::*;
use crate::error::Error;
use crate::lua::{Lua, LuaView};
use crate::metamethod::{
    is_cached_name,
    is_operator_name,
    is_protected_name,
    is_restricted_name,
    lemma_metamethod_named,
    metamethod_named,
    MetaMethod,
};
use crate::table::lists;
use crate::value::Value;

verus! {

/// Handle to the metatable of a userdata type.
///
/// The metatable is shared by all userdata of the type, so a change made through one handle
/// is seen through every other. The handle gives access to the entries that are safe to read
/// and to replace; the protected ones are refused.
#[derive(Clone, Copy, Debug, PartialEq, Eq, Structural)]
pub struct UserDataMetatable {
    index: usize,
}

/// A walk over the pairs of a userdata metatable, as they were when the walk was started.
///
/// The walk skips the protected entries, such as `__gc` or `__metatable`.
#[derive(Debug)]
pub struct UserDataMetatablePairs {
    entries: Vec<(String, Value)>,
    position: usize,
}

/// The position of the first entry of `entries` that a walk does not skip, or the length of
/// `entries` if it skips them all.
pub open spec fn first_shown(entries: Seq<(Seq<char>, Value)>) -> int
    decreases entries.len(),
{
    if entries.len() == 0 {
        0
    } else if !is_restricted_name(entries[0].0) {
        0
    } else {
        1 + first_shown(entries.drop_first())
    }
}

/// The first entry shown lies within the entries, it is not restricted, and all before it
/// are.
pub proof fn lemma_first_shown(entries: Seq<(Seq<char>, Value)>)
    ensures
        0 <= first_shown(entries) <= entries.len(),
        first_shown(entries) < entries.len() ==> !is_restricted_name(
            entries[first_shown(entries)].0,
        ),
        forall|i: int| 0 <= i < first_shown(entries) ==> is_restricted_name(entries[i].0),
    decreases entries.len(),
{
    if entries.len() > 0 && is_restricted_name(entries[0].0) {
        lemma_first_shown(entries.drop_first());
        assert forall|i: int| 0 <= i < first_shown(entries) implies is_restricted_name(
            entries[i].0,
        ) by {
            if i > 0 {
                assert(entries.drop_first()[i - 1] == entries[i]);
            }
        }
    }
}

impl UserDataMetatable {
    /// The position of the type whose metatable the handle names.
    pub closed spec fn index(&self) -> int {
        self.index as int
    }

    /// The handle to the metatable of the type registered at `index`.
    pub(crate) fn at(index: usize) -> (r: UserDataMetatable)
        ensures
            r.index() == index,
    {
        UserDataMetatable { index }
    }

    /// Whether the handle names a metatable of `lua`.
    pub open spec fn known_in<H>(&self, lua: LuaView<H>) -> bool {
        0 <= self.index() < lua.metatables.len()
    }

    /// Gets the value associated to `key` in the metatable.
    ///
    /// If no value is associated to `key`, returns `Nil`. Access to protected metamethods such
    /// as `__gc` or `__metatable` fails with `MetaMethodRestricted`. A handle that names no
    /// metatable of `lua` gives `UserDataTypeMismatch`.
    pub fn get<H>(&self, lua: &Lua<H>, key: MetaMethod) -> (r: Result<Value, Error>)
        requires
            lua.wf(),
        ensures
            !self.known_in(lua@) ==> r == Err::<Value, Error>(Error::UserDataTypeMismatch),
            self.known_in(lua@) && key.is_restricted() ==> r == Err::<Value, Error>(
                Error::MetaMethodRestricted(key->Custom_0),
            ),
            self.known_in(lua@) && !key.is_restricted() ==> r == Ok::<Value, Error>(
                if lua@.metatables[self.index()].contains_key(key@) {
                    lua@.metatables[self.index()][key@]
                } else {
                    Value::Nil
                },
            ),
    {
        if self.index >= lua.metatable_count() {
            return Err(Error::UserDataTypeMismatch);
        }
        match key.validate() {
            Err(e) => Err(e),
            Ok(key) => Ok(lua.metatable_ref(self.index).raw_get(key.name())),
        }
    }

    /// Checks whether the metatable has a value other than `Nil` for `key`.
    ///
    /// Fails as [`get`](Self::get) does.
    pub fn contains<H>(&self, lua: &Lua<H>, key: MetaMethod) -> (r: Result<bool, Error>)
        requires
            lua.wf(),
        ensures
            !self.known_in(lua@) ==> r == Err::<bool, Error>(Error::UserDataTypeMismatch),
            self.known_in(lua@) && key.is_restricted() ==> r == Err::<bool, Error>(
                Error::MetaMethodRestricted(key->Custom_0),
            ),
            self.known_in(lua@) && !key.is_restricted() ==> r == Ok::<bool, Error>(
                lua@.metatables[self.index()].contains_key(key@),
            ),
    {
        if self.index >= lua.metatable_count() {
            return Err(Error::UserDataTypeMismatch);
        }
        match key.validate() {
            Err(e) => Err(e),
            Ok(key) => Ok(lua.metatable_ref(self.index).contains_key(key.name())),
        }
    }

    /// What setting a key does.
    pub open spec fn set_outcome<H>(
        &self,
        before: LuaView<H>,
        key: MetaMethod,
        value: Value,
        r: Result<(), Error>,
        after: LuaView<H>,
    ) -> bool {
        if !self.known_in(before) {
            r == Err::<(), Error>(Error::UserDataTypeMismatch) && after == before
        } else if key.is_restricted() {
            r == Err::<(), Error>(Error::MetaMethodRestricted(key->Custom_0)) && after == before
        } else if is_cached_name(key@) {
            &&& r matches Err(Error::MetaMethodRestricted(name))
            &&& name@ == key@
            &&& after == before
        } else {
            &&& r == Ok::<(), Error>(())
            &&& after == before.with_metatable(
                self.index(),
                if value == Value::Nil {
                    before.metatables[self.index()].remove(key@)
                } else {
                    before.metatables[self.index()].insert(key@, value)
                },
            )
        }
    }

    /// Sets a key-value pair in the metatable.
    ///
    /// If the value is `Nil`, this removes the `key`. Access to protected metamethods such as
    /// `__gc` or `__metatable` fails with `MetaMethodRestricted`, and so does setting
    /// `__index` or `__newindex`, whose values the runtime caches when the type is registered.
    pub fn set<H>(&self, lua: &mut Lua<H>, key: MetaMethod, value: Value) -> (r: Result<(), Error>)
        requires
            old(lua).wf(),
        ensures
            final(lua).wf(),
            self.set_outcome(old(lua)@, key, value, r, final(lua)@),
    {
        if self.index >= lua.metatable_count() {
            return Err(Error::UserDataTypeMismatch);
        }
        let key = match key.validate() {
            Err(e) => {
                return Err(e);
            },
            Ok(key) => key,
        };
        if key.is_cached() {
            return Err(Error::MetaMethodRestricted(key.name().to_owned()));
        }
        lua.metatable_set(self.index, key.name(), value);
        Ok(())
    }

    /// Starts a walk over the pairs of the metatable. The walk sees the metatable as it is
    /// now. For a handle that names no metatable of `lua` the walk is empty.
    pub fn pairs<H>(self, lua: &Lua<H>) -> (r: UserDataMetatablePairs)
        requires
            lua.wf(),
        ensures
            r.wf(),
            self.known_in(lua@) ==> lists(r.remaining(), lua@.metatables[self.index()]),
            !self.known_in(lua@) ==> r.remaining().len() == 0,
    {
        let mut entries: Vec<(String, Value)> = Vec::new();
        if self.index < lua.metatable_count() {
            let table = lua.metatable_ref(self.index);
            let mut i: usize = 0;
            while i < table.len()
                invariant
                    i <= table.listing().len(),
                    entries@.len() == i,
                    forall|j: int|
                        0 <= j < i ==> (#[trigger] entries@[j]).0@ == table.listing()[j].0
                            && entries@[j].1 == table.listing()[j].1,
                decreases table.listing().len() - i,
            {
                entries.push(table.entry(i));
                i += 1;
            }
            proof {
                table.lemma_listing();
            }
            let r = UserDataMetatablePairs { entries, position: 0 };
            assert(r.remaining() =~= table.listing());
            r
        } else {
            UserDataMetatablePairs { entries, position: 0 }
        }
    }
}

impl UserDataMetatablePairs {
    /// The entries that the walk has not come to yet, the protected ones included.
    pub closed spec fn remaining(&self) -> Seq<(Seq<char>, Value)> {
        Seq::new(
            (self.entries@.len() - self.position) as nat,
            |i: int| (self.entries@[self.position + i].0@, self.entries@[self.position + i].1),
        )
    }

    /// The walk is within its entries.
    pub closed spec fn wf(&self) -> bool {
        self.position <= self.entries@.len()
    }

    /// Steps to the next pair that is not protected, and returns it; `None` when the walk is
    /// over. The metamethod returned is the one that the name of the entry stands for.
    pub fn next(&mut self) -> (r: Option<(MetaMethod, Value)>)
        requires
            old(self).wf(),
        ensures
            final(self).wf(),
            ({
                let rest = old(self).remaining();
                let k = first_shown(rest);
                if k < rest.len() {
                    &&& r matches Some((key, value))
                    &&& key@ == rest[k].0
                    &&& key.is_custom() == !is_operator_name(rest[k].0)
                    &&& value == rest[k].1
                    &&& final(self).remaining() == rest.subrange(k + 1, rest.len() as int)
                } else {
                    r is None && final(self).remaining().len() == 0
                }
            }),
    {
        proof {
            lemma_first_shown(old(self).remaining());
        }
        while self.position < self.entries.len()
            invariant
                self.entries == old(self).entries,
                old(self).position <= self.position <= self.entries@.len(),
                forall|i: int|
                    old(self).position <= i < self.position ==> is_restricted_name(
                        (#[trigger] self.entries@[i]).0@,
                    ),
            decreases self.entries@.len() - self.position,
        {
            let name = self.entries[self.position].0.clone();
            let value = self.entries[self.position].1;
            let ghost here = self.position as int;
            self.position += 1;
            proof {
                lemma_metamethod_named(name);
            }
            match MetaMethod::from(name).validate() {
                Ok(key) => {
                    proof {
                        let rest = old(self).remaining();
                        let k = here - old(self).position;
                        lemma_first_shown(rest);
                        assert(rest[k].0 == self.entries@[here].0@);
                        assert(first_shown(rest) == k) by {
                            if first_shown(rest) < k {
                                let f = first_shown(rest);
                                assert(rest[f].0 == self.entries@[old(self).position + f].0@);
                            }
                        }
                        assert(self.remaining() =~= rest.subrange(k + 1, rest.len() as int));
                    }
                    return Some((key, value));
                },
                Err(_) => {},
            }
        }
        proof {
            let rest = old(self).remaining();
            lemma_first_shown(rest);
            if first_shown(rest) < rest.len() {
                let f = first_shown(rest);
                assert(rest[f].0 == self.entries@[old(self).position + f].0@);
            }
        }
        None
    }
}

} // verus!
