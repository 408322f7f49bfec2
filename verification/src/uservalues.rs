use vstd::prelude::*;
use std::collections::HashMap;
use crate::value::Value;

verus! {

broadcast use vstd::std_specs::hash::group_hash_axioms;

/// The first slot index that is not stored inline.
pub const USER_VALUE_MAXSLOT: usize = 8;

/// The largest slot index.
pub const USER_VALUE_LIMIT: usize = 65535;

/// Whether `n` is the index of a user value slot: slots are counted from 1 up to 65535.
pub open spec fn slot_in_range(n: int) -> bool {
    1 <= n <= 65535
}

/// Tests whether `n` is the index of a user value slot.
pub fn is_slot_index(n: usize) -> (r: bool)
    ensures
        r == slot_in_range(n as int),
{
    n >= 1 && n <= USER_VALUE_LIMIT
}

/// The values that the runtime attaches to one userdata, each in a numbered slot.
///
/// The slots below [`USER_VALUE_MAXSLOT`] are stored inline. The others go to an overflow
/// map keyed by slot index, which is made when such a slot is first written.
#[derive(Debug)]
pub struct UserValues {
    inline: Vec<Value>,
    overflow: Option<HashMap<usize, Value>>,
}

impl View for UserValues {
    type V = Map<int, Value>;

    /// The value in each slot; a slot never written holds `Nil`.
    closed spec fn view(&self) -> Map<int, Value> {
        Map::new(|n: int| slot_in_range(n), |n: int| self.value_at(n))
    }
}

/// The user values of a userdata to which none was attached: every slot holds `Nil`.
pub open spec fn no_user_values() -> Map<int, Value> {
    Map::new(|n: int| slot_in_range(n), |n: int| Value::Nil)
}

impl UserValues {
    spec fn value_at(&self, n: int) -> Value {
        if 1 <= n < 8 {
            self.inline@[n - 1]
        } else {
            match self.overflow {
                Some(m) => if m@.contains_key(n as usize) {
                    m@[n as usize]
                } else {
                    Value::Nil
                },
                None => Value::Nil,
            }
        }
    }

    /// The inline slots are all there.
    pub closed spec fn wf(&self) -> bool {
        self.inline@.len() == 7
    }

    /// Whether the overflow map has been made.
    pub closed spec fn spilled(&self) -> bool {
        self.overflow is Some
    }

    /// User values with `Nil` in every slot and no overflow map.
    pub fn new() -> (r: UserValues)
        ensures
            r.wf(),
            r@ == no_user_values(),
            !r.spilled(),
    {
        let mut inline: Vec<Value> = Vec::new();
        let mut i: usize = 1;
        while i < USER_VALUE_MAXSLOT
            invariant
                1 <= i <= 8,
                inline@.len() == i - 1,
                forall|j: int| 0 <= j < inline@.len() ==> inline@[j] == Value::Nil,
            decreases 8 - i,
        {
            inline.push(Value::Nil);
            i += 1;
        }
        let r = UserValues { inline, overflow: None };
        assert(r@ =~= no_user_values());
        r
    }

    /// Gets the value in slot `n`.
    pub fn get(&self, n: usize) -> (r: Value)
        requires
            self.wf(),
            slot_in_range(n as int),
        ensures
            r == self@[n as int],
    {
        if n < USER_VALUE_MAXSLOT {
            self.inline[n - 1]
        } else {
            match &self.overflow {
                Some(m) => match m.get(&n) {
                    Some(v) => *v,
                    None => Value::Nil,
                },
                None => Value::Nil,
            }
        }
    }

    /// Puts `value` in slot `n`. The overflow map is made if `n` is not an inline slot and the
    /// map is not there yet.
    pub fn set(&mut self, n: usize, value: Value)
        requires
            old(self).wf(),
            slot_in_range(n as int),
        ensures
            final(self).wf(),
            final(self)@ == old(self)@.insert(n as int, value),
            final(self).spilled() == (old(self).spilled() || n >= USER_VALUE_MAXSLOT),
    {
        if n < USER_VALUE_MAXSLOT {
            self.inline[n - 1] = value;
        } else {
            if self.overflow.is_none() {
                self.overflow = Some(HashMap::new());
            }
            match &mut self.overflow {
                Some(m) => {
                    m.insert(n, value);
                },
                None => {},
            }
        }
        assert(self@ =~= old(self)@.insert(n as int, value));
    }

    /// Puts `Nil` in every slot and drops the overflow map.
    pub fn clear(&mut self)
        requires
            old(self).wf(),
        ensures
            final(self).wf(),
            final(self)@ == no_user_values(),
            !final(self).spilled(),
    {
        let mut i: usize = 0;
        while i < 7
            invariant
                i <= 7,
                self.inline@.len() == 7,
                forall|j: int| 0 <= j < i ==> self.inline@[j] == Value::Nil,
            decreases 7 - i,
        {
            self.inline[i] = Value::Nil;
            i += 1;
        }
        self.overflow = None;
        assert(self@ =~= no_user_values());
    }
}

} // verus!
