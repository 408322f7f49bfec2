use userdata::{
    AnyUserData, BorrowFlag, Capability, Error, FieldGetter, FunctionRef, HostValue, Lua, MethodMut,
    StaticUserDataFields, StaticUserDataMethods, Table, TryCloneToUserDataExt, TypeTable, TypeToken,
    UserData, UserDataFields, UserDataMethods, Value,
};

const COUNTER: TypeToken = TypeToken(1);
const OTHER: TypeToken = TypeToken(2);
const TEXT: TypeToken = TypeToken(3);

#[derive(Debug, Clone, PartialEq)]
struct Counter {
    n: i64,
}

struct Add;

impl MethodMut<Counter> for Add {
    fn call_mut(&mut self, this: &mut Counter, args: &Vec<Value>) -> Result<Vec<Value>, Error> {
        match args.first() {
            Some(Value::Integer(delta)) => {
                this.n += delta;
                Ok(Vec::new())
            }
            _ => Err(Error::RuntimeError("add needs an integer".to_string())),
        }
    }
}

struct ReadValue;

impl FieldGetter<Counter> for ReadValue {
    fn get(&self, this: &Counter) -> Result<Value, Error> {
        Ok(Value::Integer(this.n))
    }
}

impl UserData for Counter {
    fn add_fields<F: UserDataFields<Self>>(mut fields: F) -> F {
        fields.add_field_method_get("value", ReadValue);
        fields
    }

    fn add_methods<M: UserDataMethods<Self>>(mut methods: M) -> M {
        methods.add_method_mut("add", Add);
        methods
    }
}

impl HostValue for Counter {
    fn clone_value(&self) -> Self {
        Counter { n: self.n }
    }

    fn convert_into(&self, target: TypeToken) -> Self {
        Counter { n: self.n * 10 + target.0 as i64 }
    }

    fn subject(&self) -> TypeToken {
        TypeToken(self.n as u64)
    }
}

fn table_with(id: TypeToken, capabilities: &[Capability]) -> TypeTable {
    let mut table = TypeTable::new(id);
    for c in capabilities {
        table.add(*c);
    }
    table
}

fn runtime(capabilities: &[Capability]) -> Lua<Counter> {
    let mut lua = Lua::new();
    assert!(lua.register_type(table_with(COUNTER, capabilities), Table::new()));
    lua
}

fn never_called(_: Value, _: AnyUserData, _: AnyUserData) -> Result<bool, Error> {
    panic!("the equality operator must not be called")
}

#[test]
fn counter_scenario() {
    let mut lua = runtime(&[]);
    let mut methods = Counter::add_methods(StaticUserDataMethods::new());
    let fields = Counter::add_fields(StaticUserDataFields::new());
    let ud = lua.create_userdata(COUNTER, Counter { n: 0 }).unwrap();

    let mut exclusive = ud.borrow_mut(&mut lua, COUNTER).unwrap();
    assert_eq!(methods.call("add", exclusive.get_mut(), &vec![Value::Integer(5)]), Ok(vec![]));
    assert_eq!(exclusive.release(&mut lua), Ok(()));

    let shared = ud.borrow(&mut lua, COUNTER).unwrap();
    assert_eq!(fields.get("value", shared.get(&lua).unwrap()), Ok(Value::Integer(5)));

    assert_eq!(ud.borrow_mut(&mut lua, COUNTER).err(), Some(Error::UserDataBorrowMutError));
    assert_eq!(fields.get("value", shared.get(&lua).unwrap()), Ok(Value::Integer(5)));
    let second = ud.borrow(&mut lua, COUNTER).unwrap();
    assert_eq!(second.get(&lua), Some(&Counter { n: 5 }));
    assert!(second.release(&mut lua));
    assert!(shared.release(&mut lua));

    let exclusive = ud.borrow_mut(&mut lua, COUNTER).unwrap();
    assert_eq!(exclusive.get(), &Counter { n: 5 });
    assert_eq!(exclusive.release(&mut lua), Ok(()));
}

#[test]
fn register_type_is_idempotent() {
    let mut lua: Lua<Counter> = Lua::new();
    assert!(lua.register_type(table_with(COUNTER, &[Capability::Clone]), Table::new()));
    assert!(!lua.register_type(table_with(COUNTER, &[]), Table::new()));
    assert!(lua.type_table_of(COUNTER).unwrap().has_clone());
    assert!(lua.type_table_of(OTHER).is_none());
    assert_eq!(lua.find_type(COUNTER), Some(0));
    assert!(lua.register_type(table_with(OTHER, &[]), Table::new()));
    assert_eq!(lua.find_type(OTHER), Some(1));
}

#[test]
fn create_userdata_needs_a_registered_type() {
    let mut lua = runtime(&[]);
    assert_eq!(lua.create_userdata(OTHER, Counter { n: 1 }).err(), Some(Error::UserDataTypeMismatch));
    assert_eq!(lua.len(), 0);
    let a = lua.create_userdata(COUNTER, Counter { n: 1 }).unwrap();
    let b = lua.create_userdata(COUNTER, Counter { n: 2 }).unwrap();
    assert_ne!(a, b);
    assert_eq!(lua.len(), 2);
}

#[test]
fn is_probes_the_type_and_never_fails() {
    let mut lua = runtime(&[]);
    let ud = lua.create_userdata(COUNTER, Counter { n: 1 }).unwrap();
    assert!(ud.is(&lua, COUNTER));
    assert!(!ud.is(&lua, OTHER));
    ud.take(&mut lua, COUNTER).unwrap();
    assert!(!ud.is(&lua, COUNTER));
    let stranger: Lua<Counter> = Lua::new();
    assert!(!ud.is(&stranger, COUNTER));
}

#[test]
fn borrow_of_another_type_is_a_mismatch() {
    let mut lua = runtime(&[]);
    let ud = lua.create_userdata(COUNTER, Counter { n: 1 }).unwrap();
    assert_eq!(ud.borrow(&mut lua, OTHER).err(), Some(Error::UserDataTypeMismatch));
    assert_eq!(ud.borrow_mut(&mut lua, OTHER).err(), Some(Error::UserDataTypeMismatch));
    assert_eq!(ud.take(&mut lua, OTHER).err(), Some(Error::UserDataTypeMismatch));
    assert_eq!(ud.clone_or_take(&mut lua, OTHER).err(), Some(Error::UserDataTypeMismatch));
    assert!(ud.is(&lua, COUNTER));
}

#[test]
fn handle_of_another_runtime_is_a_mismatch() {
    let mut lua = runtime(&[]);
    let ud = lua.create_userdata(COUNTER, Counter { n: 1 }).unwrap();
    let mut stranger: Lua<Counter> = Lua::new();
    assert_eq!(ud.borrow(&mut stranger, COUNTER).err(), Some(Error::UserDataTypeMismatch));
    assert_eq!(ud.take(&mut stranger, COUNTER).err(), Some(Error::UserDataTypeMismatch));
    assert_eq!(ud.get_user_value(&stranger), Err(Error::UserDataTypeMismatch));
    assert_eq!(ud.get_metatable(&stranger).err(), Some(Error::UserDataTypeMismatch));
    assert!(ud.type_table(&stranger).is_none());
}

#[test]
fn exclusive_view_blocks_every_other_view() {
    let mut lua = runtime(&[]);
    let ud = lua.create_userdata(COUNTER, Counter { n: 1 }).unwrap();
    let view = ud.borrow_mut(&mut lua, COUNTER).unwrap();
    assert_eq!(ud.borrow(&mut lua, COUNTER).err(), Some(Error::UserDataBorrowError));
    assert_eq!(ud.borrow_mut(&mut lua, COUNTER).err(), Some(Error::UserDataBorrowMutError));
    assert_eq!(ud.take(&mut lua, COUNTER).err(), Some(Error::UserDataBorrowMutError));
    assert_eq!(view.release(&mut lua), Ok(()));
    assert_eq!(ud.take(&mut lua, COUNTER), Ok(Counter { n: 1 }));
}

#[test]
fn shared_view_blocks_take() {
    let mut lua = runtime(&[]);
    let ud = lua.create_userdata(COUNTER, Counter { n: 1 }).unwrap();
    let view = ud.borrow(&mut lua, COUNTER).unwrap();
    assert_eq!(ud.take(&mut lua, COUNTER).err(), Some(Error::UserDataBorrowMutError));
    assert_eq!(ud.clone_or_take(&mut lua, COUNTER).err(), Some(Error::UserDataBorrowMutError));
    assert!(ud.is(&lua, COUNTER));
    assert!(view.release(&mut lua));
    assert_eq!(ud.take(&mut lua, COUNTER), Ok(Counter { n: 1 }));
}

#[test]
fn released_views_of_a_missing_userdata_change_nothing() {
    let mut lua = runtime(&[]);
    let ud = lua.create_userdata(COUNTER, Counter { n: 1 }).unwrap();
    let shared = ud.borrow(&mut lua, COUNTER).unwrap();
    let mut stranger: Lua<Counter> = Lua::new();
    assert!(!shared.release(&mut stranger));
    let again = ud.borrow(&mut lua, COUNTER).unwrap();
    assert!(again.release(&mut lua));
    let last = ud.borrow(&mut lua, COUNTER).unwrap();
    assert!(last.release(&mut lua));
    let exclusive_after_two = ud.borrow_mut(&mut lua, COUNTER);
    assert_eq!(exclusive_after_two.err(), Some(Error::UserDataBorrowMutError));
}

#[test]
fn exclusive_view_released_elsewhere_hands_the_value_back() {
    let mut lua = runtime(&[]);
    let ud = lua.create_userdata(COUNTER, Counter { n: 4 }).unwrap();
    let view = ud.borrow_mut(&mut lua, COUNTER).unwrap();
    let mut stranger: Lua<Counter> = Lua::new();
    assert_eq!(view.release(&mut stranger), Err(Counter { n: 4 }));
}

#[test]
fn take_destructs_the_userdata() {
    let mut lua = runtime(&[Capability::Named(7), Capability::Into(OTHER), Capability::MetaType, Capability::Serialize]);
    let ud = lua.create_userdata(COUNTER, Counter { n: 3 }).unwrap();
    assert_eq!(ud.set_nth_user_value(&mut lua, 2, Value::Integer(9)), Ok(()));
    assert_eq!(ud.take(&mut lua, COUNTER), Ok(Counter { n: 3 }));

    assert_eq!(ud.borrow(&mut lua, COUNTER).err(), Some(Error::UserDataDestructed));
    assert_eq!(ud.borrow_mut(&mut lua, COUNTER).err(), Some(Error::UserDataDestructed));
    assert_eq!(ud.borrow(&mut lua, OTHER).err(), Some(Error::UserDataDestructed));
    assert_eq!(ud.dyn_borrow(&mut lua, Capability::Named(7)).err(), Some(Error::UserDataDestructed));
    assert_eq!(ud.dyn_borrow_mut(&mut lua, Capability::Named(7)).err(), Some(Error::UserDataDestructed));
    assert_eq!(ud.take(&mut lua, COUNTER).err(), Some(Error::UserDataDestructed));
    assert_eq!(ud.dyn_take(&mut lua, Capability::Named(7)).err(), Some(Error::UserDataDestructed));
    assert_eq!(ud.clone_or_take(&mut lua, COUNTER).err(), Some(Error::UserDataDestructed));
    assert_eq!(ud.dyn_clone_or_take(&mut lua, Capability::Named(7)).err(), Some(Error::UserDataDestructed));
    assert_eq!(ud.convert_into(&mut lua, OTHER).err(), Some(Error::UserDataDestructed));
    assert_eq!(ud.meta_type_table(&lua).err(), Some(Error::UserDataDestructed));
    assert_eq!(ud.serializable(&lua).err(), Some(Error::UserDataDestructed));
    assert_eq!(ud.get_nth_user_value(&lua, 2), Err(Error::UserDataDestructed));
    assert_eq!(ud.get_user_value(&lua), Err(Error::UserDataDestructed));
    assert_eq!(ud.set_user_value(&mut lua, Value::Nil), Err(Error::UserDataDestructed));
    assert_eq!(ud.set_nth_user_value(&mut lua, 0, Value::Nil), Err(Error::UserDataDestructed));
    assert_eq!(ud.get_nth_user_value(&lua, 70000), Err(Error::UserDataDestructed));
    assert_eq!(ud.get_metatable(&lua).err(), Some(Error::UserDataDestructed));
    assert!(ud.type_table(&lua).is_none());

    assert!(!ud.is(&lua, COUNTER));
    assert_eq!(ud, ud);
    assert_eq!(ud.equals(&lua, &ud, never_called), Ok(true));
}

#[test]
fn take_leaves_other_userdata_alone() {
    let mut lua = runtime(&[]);
    let a = lua.create_userdata(COUNTER, Counter { n: 1 }).unwrap();
    let b = lua.create_userdata(COUNTER, Counter { n: 2 }).unwrap();
    b.set_user_value(&mut lua, Value::Boolean(true)).unwrap();
    assert_eq!(a.take(&mut lua, COUNTER), Ok(Counter { n: 1 }));
    assert_eq!(b.get_user_value(&lua), Ok(Value::Boolean(true)));
    assert_eq!(b.take(&mut lua, COUNTER), Ok(Counter { n: 2 }));
}

#[test]
fn clone_or_take_clones_when_the_type_can() {
    let mut lua = runtime(&[Capability::Clone]);
    let ud = lua.create_userdata(COUNTER, Counter { n: 3 }).unwrap();
    ud.set_user_value(&mut lua, Value::Integer(1)).unwrap();
    assert_eq!(ud.clone_or_take(&mut lua, COUNTER), Ok(Counter { n: 3 }));
    assert_eq!(ud.clone_or_take(&mut lua, COUNTER), Ok(Counter { n: 3 }));
    assert!(ud.is(&lua, COUNTER));
    assert_eq!(ud.get_user_value(&lua), Ok(Value::Integer(1)));
    let view = ud.borrow_mut(&mut lua, COUNTER).unwrap();
    assert_eq!(view.get(), &Counter { n: 3 });
    view.release(&mut lua).unwrap();
}

#[test]
fn clone_or_take_takes_when_the_type_cannot_clone() {
    let mut lua = runtime(&[]);
    let ud = lua.create_userdata(COUNTER, Counter { n: 3 }).unwrap();
    ud.set_user_value(&mut lua, Value::Integer(1)).unwrap();
    assert_eq!(ud.clone_or_take(&mut lua, COUNTER), Ok(Counter { n: 3 }));
    assert!(!ud.is(&lua, COUNTER));
    assert_eq!(ud.clone_or_take(&mut lua, COUNTER).err(), Some(Error::UserDataDestructed));
    assert_eq!(ud.get_user_value(&lua), Err(Error::UserDataDestructed));
}

#[test]
fn dyn_operations_ask_for_the_capability() {
    let mut lua = runtime(&[Capability::Named(7)]);
    let ud = lua.create_userdata(COUNTER, Counter { n: 3 }).unwrap();
    assert_eq!(ud.dyn_borrow(&mut lua, Capability::Named(8)).err(), Some(Error::UserDataDynMismatch));
    assert_eq!(ud.dyn_borrow_mut(&mut lua, Capability::Named(8)).err(), Some(Error::UserDataDynMismatch));
    assert_eq!(ud.dyn_take(&mut lua, Capability::Named(8)).err(), Some(Error::UserDataDynMismatch));
    assert_eq!(ud.dyn_clone_or_take(&mut lua, Capability::Named(8)).err(), Some(Error::UserDataDynMismatch));

    let shared = ud.dyn_borrow(&mut lua, Capability::Named(7)).unwrap();
    assert_eq!(shared.get(&lua), Some(&Counter { n: 3 }));
    assert_eq!(ud.dyn_borrow_mut(&mut lua, Capability::Named(7)).err(), Some(Error::UserDataBorrowMutError));
    assert_eq!(ud.dyn_borrow_mut(&mut lua, Capability::Named(8)).err(), Some(Error::UserDataDynMismatch));
    assert!(shared.release(&mut lua));

    let mut exclusive = ud.dyn_borrow_mut(&mut lua, Capability::Named(7)).unwrap();
    exclusive.get_mut().n = 4;
    assert_eq!(ud.dyn_borrow(&mut lua, Capability::Named(7)).err(), Some(Error::UserDataBorrowError));
    assert_eq!(ud.dyn_borrow(&mut lua, Capability::Named(8)).err(), Some(Error::UserDataDynMismatch));
    exclusive.release(&mut lua).unwrap();

    assert_eq!(ud.dyn_take(&mut lua, Capability::Named(7)), Ok(Counter { n: 4 }));
    assert_eq!(ud.dyn_take(&mut lua, Capability::Named(8)).err(), Some(Error::UserDataDestructed));
}

#[test]
fn dyn_clone_or_take_clones_or_takes() {
    let mut lua = runtime(&[Capability::Named(7), Capability::Clone]);
    let ud = lua.create_userdata(COUNTER, Counter { n: 3 }).unwrap();
    assert_eq!(ud.dyn_clone_or_take(&mut lua, Capability::Named(7)), Ok(Counter { n: 3 }));
    assert!(ud.is(&lua, COUNTER));

    let mut lua = runtime(&[Capability::Named(7)]);
    let ud = lua.create_userdata(COUNTER, Counter { n: 3 }).unwrap();
    assert_eq!(ud.dyn_clone_or_take(&mut lua, Capability::Named(7)), Ok(Counter { n: 3 }));
    assert!(!ud.is(&lua, COUNTER));
}

#[test]
fn convert_into_consumes_unless_copy() {
    let mut lua = runtime(&[Capability::Into(OTHER)]);
    let ud = lua.create_userdata(COUNTER, Counter { n: 3 }).unwrap();
    assert_eq!(ud.convert_into(&mut lua, TEXT).err(), Some(Error::UserDataDynMismatch));
    assert!(ud.is(&lua, COUNTER));
    let held = ud.borrow(&mut lua, COUNTER).unwrap();
    assert_eq!(ud.convert_into(&mut lua, OTHER).err(), Some(Error::UserDataBorrowMutError));
    assert!(held.release(&mut lua));
    assert_eq!(ud.convert_into(&mut lua, OTHER), Ok(Counter { n: 32 }));
    assert!(!ud.is(&lua, COUNTER));
    assert_eq!(ud.convert_into(&mut lua, OTHER).err(), Some(Error::UserDataDestructed));

    let mut lua = runtime(&[Capability::Into(OTHER), Capability::Copy]);
    let ud = lua.create_userdata(COUNTER, Counter { n: 3 }).unwrap();
    assert_eq!(ud.convert_into(&mut lua, OTHER), Ok(Counter { n: 32 }));
    assert_eq!(ud.convert_into(&mut lua, OTHER), Ok(Counter { n: 32 }));
    assert!(ud.is(&lua, COUNTER));
}

#[test]
fn meta_type_table_names_the_subject() {
    let mut lua = runtime(&[]);
    let ud = lua.create_userdata(COUNTER, Counter { n: 3 }).unwrap();
    assert_eq!(ud.meta_type_table(&lua).err(), Some(Error::UserDataDynMismatch));

    let mut lua = runtime(&[Capability::MetaType]);
    let ud = lua.create_userdata(COUNTER, Counter { n: 3 }).unwrap();
    assert_eq!(ud.meta_type_table(&lua), Ok(TypeToken(3)));
    let shared = ud.borrow(&mut lua, COUNTER).unwrap();
    assert_eq!(ud.meta_type_table(&lua), Ok(TypeToken(3)));
    shared.release(&mut lua);
    let exclusive = ud.borrow_mut(&mut lua, COUNTER).unwrap();
    assert_eq!(ud.meta_type_table(&lua).err(), Some(Error::UserDataBorrowError));
    exclusive.release(&mut lua).unwrap();
}

#[test]
fn type_table_is_the_registered_one() {
    let mut lua = runtime(&[Capability::Send]);
    let ud = lua.create_userdata(COUNTER, Counter { n: 3 }).unwrap();
    let table = ud.type_table(&lua).unwrap();
    assert_eq!(table.id(), COUNTER);
    assert!(table.is(Capability::Send));
    assert!(!table.is(Capability::Sync));
}

#[test]
fn serializable_needs_the_capability_and_a_shared_view() {
    let mut lua = runtime(&[]);
    let ud = lua.create_userdata(COUNTER, Counter { n: 3 }).unwrap();
    assert_eq!(ud.serializable(&lua).err(), Some(Error::UserDataDynMismatch));

    let mut lua = runtime(&[Capability::Serialize]);
    let ud = lua.create_userdata(COUNTER, Counter { n: 3 }).unwrap();
    assert_eq!(ud.serializable(&lua), Ok(&Counter { n: 3 }));
    let exclusive = ud.borrow_mut(&mut lua, COUNTER).unwrap();
    assert_eq!(ud.serializable(&lua).err(), Some(Error::UserDataBorrowError));
    exclusive.release(&mut lua).unwrap();
}

#[test]
fn user_values_round_trip_in_every_slot_kind() {
    let mut lua = runtime(&[]);
    let ud = lua.create_userdata(COUNTER, Counter { n: 0 }).unwrap();
    for n in [1usize, 2, 7, 8, 9, 100, 65534, 65535] {
        assert_eq!(ud.get_nth_user_value(&lua, n), Ok(Value::Nil));
        assert_eq!(ud.set_nth_user_value(&mut lua, n, Value::Integer(n as i64)), Ok(()));
    }
    for n in [1usize, 2, 7, 8, 9, 100, 65534, 65535] {
        assert_eq!(ud.get_nth_user_value(&lua, n), Ok(Value::Integer(n as i64)));
    }
    assert_eq!(ud.get_nth_user_value(&lua, 3), Ok(Value::Nil));
    assert_eq!(ud.get_nth_user_value(&lua, 10), Ok(Value::Nil));
    assert_eq!(ud.set_nth_user_value(&mut lua, 8, Value::Nil), Ok(()));
    assert_eq!(ud.get_nth_user_value(&lua, 8), Ok(Value::Nil));
    assert_eq!(ud.get_nth_user_value(&lua, 9), Ok(Value::Integer(9)));
}

#[test]
fn user_value_is_slot_one() {
    let mut lua = runtime(&[]);
    let ud = lua.create_userdata(COUNTER, Counter { n: 0 }).unwrap();
    assert_eq!(ud.get_user_value(&lua), Ok(Value::Nil));
    assert_eq!(ud.set_user_value(&mut lua, Value::Function(FunctionRef(4))), Ok(()));
    assert_eq!(ud.get_user_value(&lua), Ok(Value::Function(FunctionRef(4))));
    assert_eq!(ud.get_nth_user_value(&lua, 1), Ok(Value::Function(FunctionRef(4))));
    assert_eq!(ud.get_nth_user_value(&lua, 2), Ok(Value::Nil));
}

#[test]
fn user_value_index_out_of_bounds() {
    let mut lua = runtime(&[]);
    let ud = lua.create_userdata(COUNTER, Counter { n: 0 }).unwrap();
    let refused = Error::RuntimeError("user value index out of bounds".to_string());
    assert_eq!(ud.set_nth_user_value(&mut lua, 0, Value::Integer(1)), Err(refused.clone()));
    assert_eq!(ud.set_nth_user_value(&mut lua, 65536, Value::Integer(1)), Err(refused.clone()));
    assert_eq!(ud.get_nth_user_value(&lua, 0), Err(refused.clone()));
    assert_eq!(ud.get_nth_user_value(&lua, 65536), Err(refused.clone()));
    assert_eq!(ud.get_nth_user_value(&lua, usize::MAX), Err(refused));
}

#[test]
fn user_values_do_not_depend_on_views() {
    let mut lua = runtime(&[]);
    let ud = lua.create_userdata(COUNTER, Counter { n: 0 }).unwrap();
    let view = ud.borrow_mut(&mut lua, COUNTER).unwrap();
    assert_eq!(ud.set_user_value(&mut lua, Value::Integer(3)), Ok(()));
    assert_eq!(ud.get_user_value(&lua), Ok(Value::Integer(3)));
    view.release(&mut lua).unwrap();
    assert_eq!(ud.get_user_value(&lua), Ok(Value::Integer(3)));
}

#[test]
fn equals_is_identity_first() {
    let mut lua = runtime(&[]);
    let a = lua.create_userdata(COUNTER, Counter { n: 1 }).unwrap();
    let b = lua.create_userdata(COUNTER, Counter { n: 1 }).unwrap();
    let copy = a;
    assert_eq!(a.equals(&lua, &copy, never_called), Ok(true));
    assert_eq!(a.equals(&lua, &b, never_called), Ok(false));
    assert_eq!(b.equals(&lua, &a, never_called), Ok(false));
}

#[test]
fn equals_delegates_to_the_operator_of_the_shared_type() {
    let mut lua: Lua<Counter> = Lua::new();
    let mut metatable = Table::new();
    metatable.raw_set("__eq", Value::Function(FunctionRef(11)));
    lua.register_type(table_with(COUNTER, &[]), metatable);
    lua.register_type(table_with(OTHER, &[]), Table::new());
    let a = lua.create_userdata(COUNTER, Counter { n: 1 }).unwrap();
    let b = lua.create_userdata(COUNTER, Counter { n: 2 }).unwrap();
    let c = lua.create_userdata(OTHER, Counter { n: 1 }).unwrap();

    let yes = |f: Value, x: AnyUserData, y: AnyUserData| {
        assert_eq!(f, Value::Function(FunctionRef(11)));
        assert_eq!((x, y), (a, b));
        Ok(true)
    };
    assert_eq!(a.equals(&lua, &b, yes), Ok(true));
    let no = |_: Value, _: AnyUserData, _: AnyUserData| Ok(false);
    assert_eq!(a.equals(&lua, &b, no), Ok(false));
    let fails = |_: Value, _: AnyUserData, _: AnyUserData| Err(Error::RuntimeError("eq".to_string()));
    assert_eq!(a.equals(&lua, &b, fails), Err(Error::RuntimeError("eq".to_string())));

    assert_eq!(a.equals(&lua, &c, never_called), Ok(false));
    assert_eq!(c.equals(&lua, &a, never_called), Ok(false));

    b.take(&mut lua, COUNTER).unwrap();
    assert_eq!(a.equals(&lua, &b, never_called), Ok(false));
    assert_eq!(b.equals(&lua, &a, never_called), Ok(false));
    assert_eq!(b.equals(&lua, &b, never_called), Ok(true));
}

#[test]
fn equals_of_a_missing_userdata_is_a_mismatch() {
    let mut lua = runtime(&[]);
    let a = lua.create_userdata(COUNTER, Counter { n: 1 }).unwrap();
    let b = lua.create_userdata(COUNTER, Counter { n: 1 }).unwrap();
    let mut small = runtime(&[]);
    let only = small.create_userdata(COUNTER, Counter { n: 1 }).unwrap();
    assert_eq!(a, only);
    assert_eq!(only.equals(&small, &b, never_called), Err(Error::UserDataTypeMismatch));
    assert_eq!(b.equals(&small, &only, never_called), Err(Error::UserDataTypeMismatch));
}

#[test]
fn try_clone_to_user_data_needs_clone_and_send() {
    let value = Counter { n: 6 };
    let mut lua = runtime(&[Capability::Clone]);
    assert_eq!(value.try_clone_to_user_data(&mut lua, COUNTER).err(), Some(Error::UserDataDynMismatch));
    let mut lua = runtime(&[Capability::Send]);
    assert_eq!(value.try_clone_to_user_data(&mut lua, COUNTER).err(), Some(Error::UserDataDynMismatch));
    let mut lua = runtime(&[Capability::Send, Capability::Clone]);
    assert_eq!(value.try_clone_to_user_data(&mut lua, OTHER).err(), Some(Error::UserDataDynMismatch));
    assert_eq!(lua.len(), 0);
    let ud = value.try_clone_to_user_data(&mut lua, COUNTER).unwrap();
    assert_eq!(lua.len(), 1);
    assert!(ud.is(&lua, COUNTER));
    assert_eq!(ud.take(&mut lua, COUNTER), Ok(Counter { n: 6 }));
    assert_eq!(value, Counter { n: 6 });
}

#[test]
fn from_lua_fallback_refuses_every_value() {
    let mut lua = runtime(&[]);
    let ud = lua.create_userdata(COUNTER, Counter { n: 1 }).unwrap();
    assert_eq!(Counter::from_lua_fallback(Value::UserData(ud)), Err(Error::UserDataTypeMismatch));
    assert_eq!(
        Counter::from_lua_fallback(Value::Integer(3)),
        Err(Error::FromLuaConversionError { from: "integer", to: "userdata", message: None })
    );
    assert_eq!(
        Counter::from_lua_fallback(Value::Nil),
        Err(Error::FromLuaConversionError { from: "nil", to: "userdata", message: None })
    );
}

#[test]
fn value_kind_names() {
    assert_eq!(Value::Nil.kind_name(), "nil");
    assert_eq!(Value::Boolean(true).kind_name(), "boolean");
    assert_eq!(Value::Integer(1).kind_name(), "integer");
    assert_eq!(Value::String(userdata::StringRef(1)).kind_name(), "string");
    assert_eq!(Value::Table(userdata::TableRef(1)).kind_name(), "table");
    assert_eq!(Value::Function(FunctionRef(1)).kind_name(), "function");
    assert!(Value::Nil.is_nil());
    assert!(!Value::Boolean(false).is_nil());
}

#[test]
fn flag_of_a_fresh_cell_in_the_store_is_free() {
    let mut lua = runtime(&[]);
    let ud = lua.create_userdata(COUNTER, Counter { n: 1 }).unwrap();
    let a = ud.borrow(&mut lua, COUNTER).unwrap();
    let b = ud.borrow(&mut lua, COUNTER).unwrap();
    assert!(a.release(&mut lua));
    assert!(b.release(&mut lua));
    let gone = ud.borrow(&mut lua, COUNTER).unwrap();
    assert!(gone.release(&mut lua));
    let _ = BorrowFlag::Free;
    assert!(ud.borrow_mut(&mut lua, COUNTER).is_ok());
}

#[test]
fn same_is_identity_in_every_state() {
    let mut lua = runtime(&[]);
    let a = lua.create_userdata(COUNTER, Counter { n: 1 }).unwrap();
    let b = lua.create_userdata(COUNTER, Counter { n: 1 }).unwrap();
    let copy = a;
    assert!(a.same(&copy));
    assert!(!a.same(&b));
    a.take(&mut lua, COUNTER).unwrap();
    assert!(a.same(&copy));
    assert!(!b.same(&a));
    assert!(a == copy);
}
