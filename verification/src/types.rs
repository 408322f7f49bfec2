use vstd::prelude::*;
use std::marker::PhantomData;

verus! {

/// The identity of a host type: a stable key that the embedding program gives each type it
/// exposes.
#[derive(Clone, Copy, Debug, PartialEq, Eq, Structural)]
pub struct TypeToken(pub u64);

impl TypeToken {
    /// The identity of the unit type, which stands for every type that cannot be registered
    /// because its values borrow from elsewhere.
    pub fn unit() -> (r: TypeToken)
        ensures
            r == TypeToken(0),
    {
        TypeToken(0)
    }
}

/// A named interface that a type may declare it supports.
///
/// Capabilities are asked for by token when a value is borrowed or taken dynamically, never by
/// looking at the concrete type.
#[derive(Clone, Copy, Debug, PartialEq, Eq, Structural)]
pub enum Capability {
    /// Values may be moved to another thread.
    Send,
    /// Values may be shared between threads.
    Sync,
    /// The type has a clone function.
    Clone,
    /// Values are trivially copyable: a conversion leaves the converted value usable.
    Copy,
    /// The value is itself the description of a type.
    MetaType,
    /// Values can be serialized.
    Serialize,
    /// Values can be converted into the type with the given token.
    Into(TypeToken),
    /// An interface known to the embedding program under the given number.
    Named(u64),
}

/// The type `T` itself as an object of the runtime: the receiver of the methods and fields
/// that belong to the type and not to one of its values.
pub struct Type<T> {
    _marker: PhantomData<T>,
}

impl<T> Type<T> {
    /// The object that stands for the type `T`.
    pub fn of() -> (r: Type<T>) {
        Type { _marker: PhantomData }
    }
}

/// What the runtime knows of a host type: its identity and the capabilities it declared.
///
/// A table is filled while its type is registered and is not changed afterwards.
#[derive(Debug)]
pub struct TypeTable {
    id: TypeToken,
    capabilities: Vec<Capability>,
}

/// The mathematical content of a [`TypeTable`].
pub struct TypeTableView {
    /// The identity of the type.
    pub id: TypeToken,
    /// The capabilities that the type declared.
    pub capabilities: Set<Capability>,
}

impl View for TypeTable {
    type V = TypeTableView;

    closed spec fn view(&self) -> TypeTableView {
        TypeTableView { id: self.id, capabilities: self.capabilities@.to_set() }
    }
}

impl TypeTable {
    /// Whether the type declared `capability`.
    pub open spec fn declares(&self, capability: Capability) -> bool {
        self@.capabilities.contains(capability)
    }

    /// The table of a type that has declared nothing yet.
    pub fn new(id: TypeToken) -> (r: TypeTable)
        ensures
            r@.id == id,
            r@.capabilities == Set::<Capability>::empty(),
    {
        let r = TypeTable { id, capabilities: Vec::new() };
        assert(r.capabilities@.to_set() =~= Set::<Capability>::empty());
        r
    }

    /// The identity of the type.
    pub fn id(&self) -> (r: TypeToken)
        ensures
            r == self@.id,
    {
        self.id
    }

    /// Whether the type declared `capability`.
    pub fn is(&self, capability: Capability) -> (r: bool)
        ensures
            r == self.declares(capability),
    {
        let mut i: usize = 0;
        while i < self.capabilities.len()
            invariant
                i <= self.capabilities@.len(),
                forall|j: int| 0 <= j < i ==> self.capabilities@[j] != capability,
            decreases self.capabilities@.len() - i,
        {
            if self.capabilities[i] == capability {
                assert(self.capabilities@.contains(capability));
                return true;
            }
            i += 1;
        }
        assert(!self.capabilities@.contains(capability));
        false
    }

    /// Declares `capability`. Declaring a capability twice is the same as declaring it once.
    pub fn add(&mut self, capability: Capability)
        ensures
            final(self)@.id == old(self)@.id,
            final(self)@.capabilities == old(self)@.capabilities.insert(capability),
    {
        if !self.is(capability) {
            self.capabilities.push(capability);
            assert(self.capabilities@.to_set() =~= old(self).capabilities@.to_set().insert(
                capability,
            )) by {
                assert forall|c: Capability|
                    self.capabilities@.contains(c) <==> (old(self).capabilities@.contains(c) || c
                        == capability) by {
                    if self.capabilities@.contains(c) {
                        let k = choose|k: int|
                            0 <= k < self.capabilities@.len() && self.capabilities@[k] == c;
                        if k < old(self).capabilities@.len() {
                            assert(old(self).capabilities@[k] == c);
                        }
                    }
                    if old(self).capabilities@.contains(c) {
                        let k = choose|k: int|
                            0 <= k < old(self).capabilities@.len() && old(self).capabilities@[k]
                                == c;
                        assert(self.capabilities@[k] == c);
                    }
                    if c == capability {
                        assert(self.capabilities@[old(self).capabilities@.len() as int] == c);
                    }
                }
            }
        } else {
            assert(self@.capabilities =~= old(self)@.capabilities.insert(capability));
        }
    }

    /// Declares that values may be moved to another thread.
    pub fn add_send(&mut self)
        ensures
            final(self)@.id == old(self)@.id,
            final(self)@.capabilities == old(self)@.capabilities.insert(Capability::Send),
    {
        self.add(Capability::Send)
    }

    /// Declares that values may be shared between threads.
    pub fn add_sync(&mut self)
        ensures
            final(self)@.id == old(self)@.id,
            final(self)@.capabilities == old(self)@.capabilities.insert(Capability::Sync),
    {
        self.add(Capability::Sync)
    }

    /// Declares that the type has a clone function.
    pub fn add_clone(&mut self)
        ensures
            final(self)@.id == old(self)@.id,
            final(self)@.capabilities == old(self)@.capabilities.insert(Capability::Clone),
    {
        self.add(Capability::Clone)
    }

    /// Declares that values are trivially copyable.
    pub fn add_copy(&mut self)
        ensures
            final(self)@.id == old(self)@.id,
            final(self)@.capabilities == old(self)@.capabilities.insert(Capability::Copy),
    {
        self.add(Capability::Copy)
    }

    /// Whether values are trivially copyable.
    pub fn is_copy(&self) -> (r: bool)
        ensures
            r == self.declares(Capability::Copy),
    {
        self.is(Capability::Copy)
    }

    /// Whether the type has a clone function.
    pub fn has_clone(&self) -> (r: bool)
        ensures
            r == self.declares(Capability::Clone),
    {
        self.is(Capability::Clone)
    }

    /// A copy of the table.
    pub fn duplicate(&self) -> (r: TypeTable)
        ensures
            r@ == self@,
    {
        let mut capabilities: Vec<Capability> = Vec::new();
        let mut i: usize = 0;
        while i < self.capabilities.len()
            invariant
                i <= self.capabilities@.len(),
                capabilities@ == self.capabilities@.subrange(0, i as int),
            decreases self.capabilities@.len() - i,
        {
            capabilities.push(self.capabilities[i]);
            assert(capabilities@ =~= self.capabilities@.subrange(0, i + 1));
            i += 1;
        }
        assert(capabilities@ =~= self.capabilities@);
        TypeTable { id: self.id, capabilities }
    }
}

} // verus!
