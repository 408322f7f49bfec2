use vstd::prelude::*;
use vstd::string::*;
use crate::strings::str_eq;
use crate::value::Value;

verus! {

/// A table of the runtime that is keyed by names, such as the metatable of a userdata type.
///
/// A name is present when a value other than `Nil` is stored under it; storing `Nil` removes
/// the name.
#[derive(Debug)]
pub struct Table {
    entries: Vec<(String, Value)>,
}

/// Whether `listing` names each entry of `map` once, and nothing else.
pub open spec fn lists(listing: Seq<(Seq<char>, Value)>, map: Map<Seq<char>, Value>) -> bool {
    &&& forall|i: int|
        0 <= i < listing.len() ==> map.contains_key((#[trigger] listing[i]).0) && map[listing[i].0]
            == listing[i].1
    &&& forall|k: Seq<char>|
        map.contains_key(k) ==> exists|i: int|
            0 <= i < listing.len() && (#[trigger] listing[i]).0 == k
    &&& forall|i: int, j: int|
        0 <= i < j < listing.len() ==> (#[trigger] listing[i]).0 != (#[trigger] listing[j]).0
}

impl View for Table {
    type V = Map<Seq<char>, Value>;

    /// The table as a map from the names present to their values.
    closed spec fn view(&self) -> Map<Seq<char>, Value> {
        Map::new(
            |k: Seq<char>| exists|i: int| self.holds_at(i, k),
            |k: Seq<char>| self.entries@[choose|i: int| self.holds_at(i, k)].1,
        )
    }
}

impl Table {
    spec fn holds_at(&self, i: int, key: Seq<char>) -> bool {
        0 <= i < self.entries@.len() && self.entries@[i].0@ == key
    }

    /// No name is stored twice, and `Nil` is never stored.
    pub closed spec fn wf(&self) -> bool {
        &&& forall|i: int, j: int|
            0 <= i < j < self.entries@.len() ==> self.entries@[i].0@ != self.entries@[j].0@
        &&& forall|i: int| 0 <= i < self.entries@.len() ==> self.entries@[i].1 != Value::Nil
    }

    /// The names and values of the table in the order in which the table is walked.
    pub closed spec fn listing(&self) -> Seq<(Seq<char>, Value)> {
        Seq::new(self.entries@.len(), |i: int| (self.entries@[i].0@, self.entries@[i].1))
    }

    /// The value stored under `key`, or `Nil` if the name is not present.
    pub open spec fn value_of(&self, key: Seq<char>) -> Value {
        if self@.contains_key(key) {
            self@[key]
        } else {
            Value::Nil
        }
    }

    proof fn lemma_entry(&self, i: int)
        requires
            self.wf(),
            0 <= i < self.entries@.len(),
        ensures
            self@.contains_key(self.entries@[i].0@),
            self@[self.entries@[i].0@] == self.entries@[i].1,
    {
        let k = self.entries@[i].0@;
        assert(self.holds_at(i, k));
        let j = choose|j: int| self.holds_at(j, k);
        assert(self.holds_at(j, k));
        assert(i == j);
    }

    proof fn lemma_absent(&self, key: Seq<char>)
        requires
            forall|i: int| 0 <= i < self.entries@.len() ==> self.entries@[i].0@ != key,
        ensures
            !self@.contains_key(key),
    {
        assert forall|i: int| !self.holds_at(i, key) by {}
    }

    /// No name of the table has `Nil` stored under it.
    pub proof fn lemma_no_nil(&self)
        requires
            self.wf(),
        ensures
            forall|k: Seq<char>| self@.contains_key(k) ==> self@[k] != Value::Nil,
    {
        assert forall|k: Seq<char>| self@.contains_key(k) implies self@[k] != Value::Nil by {
            let i = choose|i: int| self.holds_at(i, k);
            assert(self.holds_at(i, k));
            self.lemma_entry(i);
        }
    }

    /// The listing names each entry of the table once, and nothing else.
    pub proof fn lemma_listing(&self)
        requires
            self.wf(),
        ensures
            lists(self.listing(), self@),
    {
        assert forall|i: int| 0 <= i < self.listing().len() implies self@.contains_key(
            (#[trigger] self.listing()[i]).0,
        ) && self@[self.listing()[i].0] == self.listing()[i].1 by {
            self.lemma_entry(i);
        }
        assert forall|k: Seq<char>| self@.contains_key(k) implies exists|i: int|
            0 <= i < self.listing().len() && (#[trigger] self.listing()[i]).0 == k by {
            let i = choose|i: int| self.holds_at(i, k);
            assert(self.holds_at(i, k));
            assert(self.listing()[i].0 == k);
        }
    }

    /// A table with no name in it.
    pub fn new() -> (r: Table)
        ensures
            r.wf(),
            r@ == Map::<Seq<char>, Value>::empty(),
            r.listing() == Seq::<(Seq<char>, Value)>::empty(),
    {
        let r = Table { entries: Vec::new() };
        proof {
            assert forall|k: Seq<char>| !r@.contains_key(k) by {
                r.lemma_absent(k);
            }
            assert(r@ =~= Map::<Seq<char>, Value>::empty());
            assert(r.listing() =~= Seq::<(Seq<char>, Value)>::empty());
        }
        r
    }

    /// The number of names present.
    pub fn len(&self) -> (r: usize)
        ensures
            r == self.listing().len(),
    {
        self.entries.len()
    }

    fn find(&self, key: &str) -> (r: Option<usize>)
        ensures
            r matches Some(i) ==> self.holds_at(i as int, key@),
            r is None ==> forall|i: int|
                0 <= i < self.entries@.len() ==> self.entries@[i].0@ != key@,
    {
        let mut i: usize = 0;
        while i < self.entries.len()
            invariant
                i <= self.entries@.len(),
                forall|j: int| 0 <= j < i ==> self.entries@[j].0@ != key@,
            decreases self.entries@.len() - i,
        {
            if str_eq(self.entries[i].0.as_str(), key) {
                return Some(i);
            }
            i += 1;
        }
        None
    }

    /// Gets the value stored under `key`, or `Nil` if there is none.
    pub fn raw_get(&self, key: &str) -> (r: Value)
        requires
            self.wf(),
        ensures
            r == self.value_of(key@),
    {
        match self.find(key) {
            Some(i) => {
                proof {
                    self.lemma_entry(i as int);
                }
                self.entries[i].1
            },
            None => {
                proof {
                    self.lemma_absent(key@);
                }
                Value::Nil
            },
        }
    }

    /// Checks whether a value other than `Nil` is stored under `key`.
    pub fn contains_key(&self, key: &str) -> (r: bool)
        requires
            self.wf(),
        ensures
            r == self@.contains_key(key@),
    {
        match self.find(key) {
            Some(i) => {
                proof {
                    self.lemma_entry(i as int);
                }
                true
            },
            None => {
                proof {
                    self.lemma_absent(key@);
                }
                false
            },
        }
    }

    /// Stores `value` under `key`. Storing `Nil` removes the name.
    pub fn raw_set(&mut self, key: &str, value: Value)
        requires
            old(self).wf(),
        ensures
            final(self).wf(),
            value == Value::Nil ==> final(self)@ == old(self)@.remove(key@),
            value != Value::Nil ==> final(self)@ == old(self)@.insert(key@, value),
    {
        let found = self.find(key);
        let is_nil = value.is_nil();
        match found {
            Some(i) => {
                if is_nil {
                    self.entries.remove(i);
                    proof {
                        assert forall|k: Seq<char>|
                            self@.contains_key(k) <==> old(self)@.remove(key@).contains_key(
                                k,
                            ) by {
                            if self@.contains_key(k) {
                                let j = choose|j: int| self.holds_at(j, k);
                                assert(self.holds_at(j, k));
                                let j0 = if j < i { j } else { j + 1 };
                                assert(old(self).holds_at(j0, k));
                            }
                            if old(self)@.remove(key@).contains_key(k) {
                                let j = choose|j: int| old(self).holds_at(j, k);
                                assert(old(self).holds_at(j, k));
                                assert(j != i);
                                let j1 = if j < i { j } else { j - 1 };
                                assert(self.holds_at(j1, k));
                            }
                        }
                        assert forall|k: Seq<char>| self@.contains_key(k) implies self@[k] == old(
                            self,
                        )@.remove(key@)[k] by {
                            let j = choose|j: int| self.holds_at(j, k);
                            assert(self.holds_at(j, k));
                            let j0 = if j < i { j } else { j + 1 };
                            old(self).lemma_entry(j0);
                            self.lemma_entry(j);
                        }
                        assert(self@ =~= old(self)@.remove(key@));
                    }
                } else {
                    self.entries[i].1 = value;
                    proof {
                        assert(self.entries@[i as int].0 == old(self).entries@[i as int].0);
                        assert forall|j: int| 0 <= j < self.entries@.len() implies (
                        #[trigger] self.entries@[j]).0 == old(self).entries@[j].0 by {}
                        assert forall|k: Seq<char>|
                            self@.contains_key(k) <==> old(self)@.insert(
                                key@,
                                value,
                            ).contains_key(k) by {
                            if self@.contains_key(k) {
                                let j = choose|j: int| self.holds_at(j, k);
                                assert(self.holds_at(j, k));
                                assert(old(self).holds_at(j, k));
                            }
                            if old(self)@.contains_key(k) {
                                let j = choose|j: int| old(self).holds_at(j, k);
                                assert(old(self).holds_at(j, k));
                                assert(self.holds_at(j, k));
                            }
                            if k == key@ {
                                assert(self.holds_at(i as int, k));
                            }
                        }
                        assert forall|k: Seq<char>| self@.contains_key(k) implies self@[k] == old(
                            self,
                        )@.insert(key@, value)[k] by {
                            let j = choose|j: int| self.holds_at(j, k);
                            assert(self.holds_at(j, k));
                            self.lemma_entry(j);
                            if j != i {
                                old(self).lemma_entry(j);
                            }
                        }
                        assert(self@ =~= old(self)@.insert(key@, value));
                    }
                }
            },
            None => {
                if !is_nil {
                    self.entries.push((key.to_owned(), value));
                    proof {
                        let n = old(self).entries@.len() as int;
                        assert(self.entries@[n].0@ == key@);
                        assert forall|k: Seq<char>|
                            self@.contains_key(k) <==> old(self)@.insert(
                                key@,
                                value,
                            ).contains_key(k) by {
                            if self@.contains_key(k) {
                                let j = choose|j: int| self.holds_at(j, k);
                                assert(self.holds_at(j, k));
                                if j < n {
                                    assert(old(self).holds_at(j, k));
                                }
                            }
                            if old(self)@.contains_key(k) {
                                let j = choose|j: int| old(self).holds_at(j, k);
                                assert(old(self).holds_at(j, k));
                                assert(self.holds_at(j, k));
                            }
                            if k == key@ {
                                assert(self.holds_at(n, k));
                            }
                        }
                        assert forall|k: Seq<char>| self@.contains_key(k) implies self@[k] == old(
                            self,
                        )@.insert(key@, value)[k] by {
                            let j = choose|j: int| self.holds_at(j, k);
                            assert(self.holds_at(j, k));
                            self.lemma_entry(j);
                            if j < n {
                                old(self).lemma_entry(j);
                            }
                        }
                        assert(self@ =~= old(self)@.insert(key@, value));
                    }
                } else {
                    proof {
                        old(self).lemma_absent(key@);
                        assert(self@ =~= old(self)@.remove(key@));
                    }
                }
            },
        }
    }

    /// The name and the value at a position of the walk through the table.
    pub fn entry(&self, position: usize) -> (r: (String, Value))
        requires
            position < self.listing().len(),
        ensures
            r.0@ == self.listing()[position as int].0,
            r.1 == self.listing()[position as int].1,
    {
        (self.entries[position].0.clone(), self.entries[position].1)
    }
}

} // verus!
