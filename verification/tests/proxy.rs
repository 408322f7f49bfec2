use userdata::{
    Capability, EntryKind, Error, FieldGetter, FieldSetter, Function, FunctionMut, FunctionRef,
    GuardedCell, MetaMethod, Method, MethodMut, NonBlockingGuardedBorrow,
    NonBlockingGuardedMutBorrowMut, SharedRef, StaticUserDataFields, StaticUserDataMethods,
    Type, TypeTable, TypeToken, UserData, UserDataFields, UserDataMethods, Value,
};

#[derive(Debug, Clone, PartialEq)]
struct Tally {
    n: i64,
}

struct Bump;

impl MethodMut<Tally> for Bump {
    fn call_mut(&mut self, this: &mut Tally, args: &Vec<Value>) -> Result<Vec<Value>, Error> {
        match args.first() {
            Some(Value::Integer(delta)) => {
                this.n += delta;
                Ok(Vec::new())
            }
            _ => Err(Error::RuntimeError("add needs an integer".to_string())),
        }
    }
}

struct BumpThenFail;

impl MethodMut<Tally> for BumpThenFail {
    fn call_mut(&mut self, this: &mut Tally, _args: &Vec<Value>) -> Result<Vec<Value>, Error> {
        this.n += 100;
        Err(Error::RuntimeError("failed after the change".to_string()))
    }
}

struct Read;

impl Method<Tally> for Read {
    fn call(&self, this: &Tally, _args: &Vec<Value>) -> Result<Vec<Value>, Error> {
        Ok(vec![Value::Integer(this.n)])
    }
}

struct Negate;

impl Method<Tally> for Negate {
    fn call(&self, this: &Tally, _args: &Vec<Value>) -> Result<Vec<Value>, Error> {
        Ok(vec![Value::Integer(-this.n)])
    }
}

struct Reset;

impl MethodMut<Tally> for Reset {
    fn call_mut(&mut self, this: &mut Tally, _args: &Vec<Value>) -> Result<Vec<Value>, Error> {
        this.n = 0;
        Ok(Vec::new())
    }
}

struct Count;

impl Function for Count {
    fn call(&self, args: &Vec<Value>) -> Result<Vec<Value>, Error> {
        Ok(vec![Value::Integer(args.len() as i64)])
    }
}

struct Calls(i64);

impl FunctionMut for Calls {
    fn call_mut(&mut self, _args: &Vec<Value>) -> Result<Vec<Value>, Error> {
        self.0 += 1;
        Ok(vec![Value::Integer(self.0)])
    }
}

struct GetValue;

impl FieldGetter<Tally> for GetValue {
    fn get(&self, this: &Tally) -> Result<Value, Error> {
        Ok(Value::Integer(this.n))
    }
}

struct SetValue;

impl FieldSetter<Tally> for SetValue {
    fn set(&mut self, this: &mut Tally, value: Value) -> Result<(), Error> {
        match value {
            Value::Integer(n) => {
                this.n = n;
                Ok(())
            }
            _ => Err(Error::RuntimeError("value must be an integer".to_string())),
        }
    }
}

impl UserData for Tally {
    fn add_fields<F: UserDataFields<Self>>(mut fields: F) -> F {
        fields.add_field_method_get("value", GetValue);
        fields.add_field_method_set("value", SetValue);
        fields.add_field_function_get("kind", Count);
        fields.add_field_function_set("kind", Calls(0));
        fields.add_meta_field_with(MetaMethod::from("__name"), Count);
        fields.add_field_getter("raw", FunctionRef(1));
        fields.add_field_setter("raw", FunctionRef(2));
        fields
    }

    fn add_methods<M: UserDataMethods<Self>>(mut methods: M) -> M {
        methods.add_method("read", Read);
        methods.add_method_mut("add", Bump);
        methods.add_method_mut("fail", BumpThenFail);
        methods.add_function("count", Count);
        methods.add_function_mut("calls", Calls(0));
        methods.add_meta_method(MetaMethod::Unm, Negate);
        methods.add_meta_method_mut(MetaMethod::Close, Reset);
        methods.add_meta_function(MetaMethod::Call, Count);
        methods.add_meta_function_mut(MetaMethod::Len, Calls(10));
        methods.add_callback("raw", FunctionRef(3));
        methods.add_meta_callback(MetaMethod::ToString, FunctionRef(4));
        methods
    }

    fn on_metatable_init(table: &mut TypeTable) {
        table.add_send();
    }
}

fn ints(n: i64) -> Vec<Value> {
    vec![Value::Integer(n)]
}

fn no_values() -> Vec<Value> {
    Vec::new()
}

fn nil_call() -> Error {
    Error::RuntimeError("attempt to call a nil value".to_string())
}

fn expected_method_entries() -> Vec<(&'static str, EntryKind)> {
    vec![
        ("read", EntryKind::Method),
        ("add", EntryKind::MethodMut),
        ("fail", EntryKind::MethodMut),
        ("count", EntryKind::Function),
        ("calls", EntryKind::FunctionMut),
        ("__unm", EntryKind::MetaMethod),
        ("__close", EntryKind::MetaMethodMut),
        ("__call", EntryKind::MetaFunction),
        ("__len", EntryKind::MetaFunctionMut),
        ("raw", EntryKind::Callback),
        ("__tostring", EntryKind::MetaCallback),
    ]
}

fn expected_field_entries() -> Vec<(&'static str, EntryKind)> {
    vec![
        ("value", EntryKind::FieldGet),
        ("value", EntryKind::FieldSet),
        ("kind", EntryKind::FieldFunctionGet),
        ("kind", EntryKind::FieldFunctionSet),
        ("__name", EntryKind::MetaField),
        ("raw", EntryKind::FieldGetterCallback),
        ("raw", EntryKind::FieldSetterCallback),
    ]
}

fn method_entries<T>(methods: &StaticUserDataMethods<T>) -> Vec<(String, EntryKind)> {
    (0..methods.len()).map(|i| (methods.name_at(i).to_string(), methods.kind_at(i))).collect()
}

fn field_entries<T>(fields: &StaticUserDataFields<T>) -> Vec<(String, EntryKind)> {
    (0..fields.len()).map(|i| (fields.name_at(i).to_string(), fields.kind_at(i))).collect()
}

fn owned(entries: Vec<(&'static str, EntryKind)>) -> Vec<(String, EntryKind)> {
    entries.into_iter().map(|(n, k)| (n.to_string(), k)).collect()
}

fn guarded_methods() -> StaticUserDataMethods<GuardedCell<Tally>> {
    <GuardedCell<Tally> as UserData>::add_methods(StaticUserDataMethods::new())
}

fn guarded_fields() -> StaticUserDataFields<GuardedCell<Tally>> {
    <GuardedCell<Tally> as UserData>::add_fields(StaticUserDataFields::new())
}

fn shared_methods() -> StaticUserDataMethods<SharedRef<Tally>> {
    <SharedRef<Tally> as UserData>::add_methods(StaticUserDataMethods::new())
}

fn shared_fields() -> StaticUserDataFields<SharedRef<Tally>> {
    <SharedRef<Tally> as UserData>::add_fields(StaticUserDataFields::new())
}

#[test]
fn registry_records_the_surface_in_order() {
    let mut methods = Tally::add_methods(StaticUserDataMethods::new());
    assert_eq!(method_entries(&methods), owned(expected_method_entries()));
    let mut fields = Tally::add_fields(StaticUserDataFields::new());
    assert_eq!(field_entries(&fields), owned(expected_field_entries()));
}

#[test]
fn proxies_pass_the_surface_on_under_the_same_names_and_kinds() {
    assert_eq!(method_entries(&guarded_methods()), owned(expected_method_entries()));
    assert_eq!(field_entries(&guarded_fields()), owned(expected_field_entries()));
    assert_eq!(method_entries(&shared_methods()), owned(expected_method_entries()));
    assert_eq!(field_entries(&shared_fields()), owned(expected_field_entries()));
}

#[test]
fn registry_runs_what_was_registered() {
    let mut methods = Tally::add_methods(StaticUserDataMethods::new());
    let mut tally = Tally { n: 2 };
    assert_eq!(methods.call("add", &mut tally, &ints(5)), Ok(no_values()));
    assert_eq!(tally.n, 7);
    assert_eq!(methods.call("read", &mut tally, &no_values()), Ok(ints(7)));
    assert_eq!(methods.call("count", &mut tally, &vec![Value::Nil, Value::Nil]), Ok(ints(2)));
    assert_eq!(methods.call("calls", &mut tally, &no_values()), Ok(ints(1)));
    assert_eq!(methods.call("calls", &mut tally, &no_values()), Ok(ints(2)));
    assert_eq!(methods.call_meta(&MetaMethod::Unm, &mut tally, &no_values()), Ok(ints(-7)));
    assert_eq!(methods.call_meta(&MetaMethod::Call, &mut tally, &ints(0)), Ok(ints(1)));
    assert_eq!(methods.call_meta(&MetaMethod::Len, &mut tally, &no_values()), Ok(ints(11)));
    assert_eq!(methods.call_meta(&MetaMethod::Close, &mut tally, &no_values()), Ok(no_values()));
    assert_eq!(tally.n, 0);
}

#[test]
fn registry_refuses_what_was_not_registered() {
    let mut methods = Tally::add_methods(StaticUserDataMethods::new());
    let mut tally = Tally { n: 2 };
    assert_eq!(methods.call("nothing", &mut tally, &no_values()), Err(nil_call()));
    assert_eq!(methods.call("__unm", &mut tally, &no_values()), Err(nil_call()));
    assert_eq!(methods.call("raw", &mut tally, &no_values()), Err(nil_call()));
    assert_eq!(methods.call_meta(&MetaMethod::Add, &mut tally, &no_values()), Err(nil_call()));
    assert_eq!(methods.call_meta(&MetaMethod::from("read"), &mut tally, &no_values()), Err(nil_call()));
    assert_eq!(methods.call_meta(&MetaMethod::ToString, &mut tally, &no_values()), Err(nil_call()));
    assert_eq!(tally, Tally { n: 2 });
    assert_eq!(methods.len(), 11);
}

#[test]
fn registry_runs_the_last_registration_of_a_name() {
    let mut methods: StaticUserDataMethods<Tally> = StaticUserDataMethods::new();
    methods.add_method("m", Read);
    methods.add_method("m", Negate);
    let mut tally = Tally { n: 4 };
    assert_eq!(methods.call("m", &mut tally, &no_values()), Ok(ints(-4)));
}

#[test]
fn field_registry_reads_and_writes() {
    let mut fields = Tally::add_fields(StaticUserDataFields::new());
    let mut tally = Tally { n: 2 };
    assert_eq!(fields.get("value", &tally), Ok(Value::Integer(2)));
    assert_eq!(fields.set("value", &mut tally, Value::Integer(9)), Ok(()));
    assert_eq!(fields.get("value", &tally), Ok(Value::Integer(9)));
    assert_eq!(fields.get("nothing", &tally), Ok(Value::Nil));
    assert_eq!(fields.get("kind", &tally), Ok(Value::Nil));
    assert_eq!(
        fields.set("nothing", &mut tally, Value::Nil),
        Err(Error::RuntimeError("attempt to set an unknown field".to_string()))
    );
    assert_eq!(
        fields.set("value", &mut tally, Value::Nil),
        Err(Error::RuntimeError("value must be an integer".to_string()))
    );
    assert_eq!(tally.n, 9);
}

#[test]
fn mutable_proxy_scenario() {
    let mut methods = guarded_methods();
    let mut cell = GuardedCell::new(Tally { n: 0 });
    assert_eq!(methods.call("add", &mut cell, &ints(5)), Ok(no_values()));
    assert_eq!(cell.peek(), &Tally { n: 5 });

    assert!(cell.try_nonblocking_guarded_mut_borrow_mut());
    assert_eq!(methods.call("add", &mut cell, &ints(5)), Err(Error::UserDataProxyBorrowMutError));
    assert_eq!(cell.peek(), &Tally { n: 5 });
    assert_eq!(methods.call("read", &mut cell, &no_values()), Err(Error::UserDataProxyBorrowError));
    cell.release_guarded_mut();

    assert_eq!(methods.call("add", &mut cell, &ints(5)), Ok(no_values()));
    assert_eq!(cell.into_inner(), Tally { n: 10 });
}

#[test]
fn mutable_proxy_releases_its_guard_when_the_method_fails() {
    let mut methods = guarded_methods();
    let mut cell = GuardedCell::new(Tally { n: 0 });
    assert_eq!(
        methods.call("fail", &mut cell, &no_values()),
        Err(Error::RuntimeError("failed after the change".to_string()))
    );
    assert_eq!(cell.peek(), &Tally { n: 100 });
    assert_eq!(methods.call("add", &mut cell, &vec![Value::Nil]), Err(Error::RuntimeError("add needs an integer".to_string())));
    assert!(cell.try_nonblocking_guarded_borrow().is_some());
    assert_eq!(methods.call("add", &mut cell, &ints(1)), Ok(no_values()));
    assert_eq!(methods.call("read", &mut cell, &no_values()), Ok(ints(101)));
    assert!(cell.try_nonblocking_guarded_mut_borrow_mut());
    assert!(!cell.try_nonblocking_guarded_mut_borrow_mut());
    cell.release_guarded_mut();
    assert!(cell.try_nonblocking_guarded_mut_borrow_mut());
}

#[test]
fn mutable_proxy_with_a_shared_guard_held() {
    let mut methods = guarded_methods();
    let mut fields = guarded_fields();
    let mut cell = GuardedCell::new(Tally { n: 3 });
    assert!(cell.hold_shared());
    assert!(cell.hold_shared());
    assert_eq!(methods.call("read", &mut cell, &no_values()), Ok(ints(3)));
    assert_eq!(fields.get("value", &cell), Ok(Value::Integer(3)));
    assert_eq!(methods.call("add", &mut cell, &ints(1)), Err(Error::UserDataProxyBorrowMutError));
    assert_eq!(
        fields.set("value", &mut cell, Value::Integer(1)),
        Err(Error::UserDataProxyBorrowMutError)
    );
    assert_eq!(methods.call_meta(&MetaMethod::Close, &mut cell, &no_values()), Err(Error::UserDataProxyBorrowMutError));
    assert!(!cell.try_nonblocking_guarded_mut_borrow_mut());
    assert!(cell.release_shared());
    assert_eq!(methods.call("add", &mut cell, &ints(1)), Err(Error::UserDataProxyBorrowMutError));
    assert!(cell.release_shared());
    assert!(!cell.release_shared());
    assert_eq!(methods.call("add", &mut cell, &ints(1)), Ok(no_values()));
    assert_eq!(fields.set("value", &mut cell, Value::Integer(8)), Ok(()));
    assert_eq!(cell.peek().n, 8);
}

#[test]
fn mutable_proxy_forwards_metamethods_and_functions() {
    let mut methods = guarded_methods();
    let mut cell = GuardedCell::new(Tally { n: 3 });
    assert_eq!(methods.call_meta(&MetaMethod::Unm, &mut cell, &no_values()), Ok(ints(-3)));
    assert_eq!(methods.call_meta(&MetaMethod::Close, &mut cell, &no_values()), Ok(no_values()));
    assert_eq!(cell.peek().n, 0);
    assert!(cell.try_nonblocking_guarded_mut_borrow_mut());
    assert_eq!(methods.call("count", &mut cell, &ints(1)), Ok(ints(1)));
    assert_eq!(methods.call("calls", &mut cell, &no_values()), Ok(ints(1)));
    assert_eq!(methods.call_meta(&MetaMethod::Call, &mut cell, &no_values()), Ok(ints(0)));
    assert_eq!(methods.call_meta(&MetaMethod::Len, &mut cell, &no_values()), Ok(ints(11)));
    assert_eq!(methods.call_meta(&MetaMethod::Unm, &mut cell, &no_values()), Err(Error::UserDataProxyBorrowError));
}

#[test]
fn mutable_proxy_fields() {
    let mut fields = guarded_fields();
    let mut cell = GuardedCell::new(Tally { n: 3 });
    assert_eq!(fields.get("value", &cell), Ok(Value::Integer(3)));
    assert_eq!(fields.set("value", &mut cell, Value::Integer(4)), Ok(()));
    assert_eq!(fields.get("value", &cell), Ok(Value::Integer(4)));
    assert_eq!(
        fields.set("value", &mut cell, Value::Boolean(true)),
        Err(Error::RuntimeError("value must be an integer".to_string()))
    );
    assert_eq!(fields.set("value", &mut cell, Value::Integer(5)), Ok(()));
    assert!(cell.try_nonblocking_guarded_mut_borrow_mut());
    assert_eq!(fields.get("value", &cell), Err(Error::UserDataProxyBorrowError));
    assert_eq!(
        fields.set("value", &mut cell, Value::Integer(6)),
        Err(Error::UserDataProxyBorrowMutError)
    );
    cell.release_guarded_mut();
    assert_eq!(fields.get("value", &cell), Ok(Value::Integer(5)));
}

#[test]
fn immutable_proxy_scenario() {
    let mut methods = shared_methods();
    let mut fields = shared_fields();
    let mut shared = SharedRef::new(Tally { n: 7 });
    assert_eq!(fields.get("value", &shared), Ok(Value::Integer(7)));
    assert_eq!(methods.call("add", &mut shared, &ints(5)), Err(Error::UserDataProxyBorrowMutError));
    assert_eq!(methods.call("add", &mut shared, &ints(5)), Err(Error::UserDataProxyBorrowMutError));
    assert_eq!(fields.get("value", &shared), Ok(Value::Integer(7)));
    assert_eq!(shared.into_inner(), Tally { n: 7 });
}

#[test]
fn immutable_proxy_rejects_every_mutable_entry_point() {
    let mut methods = shared_methods();
    let mut fields = shared_fields();
    let mut shared = SharedRef::new(Tally { n: 7 });
    for _ in 0..3 {
        assert_eq!(methods.call("read", &mut shared, &no_values()), Ok(ints(7)));
        assert_eq!(methods.call("add", &mut shared, &ints(1)), Err(Error::UserDataProxyBorrowMutError));
        assert_eq!(methods.call("add", &mut shared, &no_values()), Err(Error::UserDataProxyBorrowMutError));
        assert_eq!(methods.call("fail", &mut shared, &no_values()), Err(Error::UserDataProxyBorrowMutError));
        assert_eq!(methods.call_meta(&MetaMethod::Unm, &mut shared, &no_values()), Ok(ints(-7)));
        assert_eq!(
            methods.call_meta(&MetaMethod::Close, &mut shared, &no_values()),
            Err(Error::UserDataProxyBorrowMutError)
        );
        assert_eq!(fields.get("value", &shared), Ok(Value::Integer(7)));
        assert_eq!(
            fields.set("value", &mut shared, Value::Integer(1)),
            Err(Error::UserDataProxyBorrowMutError)
        );
    }
    assert_eq!(shared.into_inner(), Tally { n: 7 });
}

#[test]
fn immutable_proxy_passes_functions_through() {
    let mut methods = shared_methods();
    let mut shared = SharedRef::new(Tally { n: 7 });
    assert_eq!(methods.call("count", &mut shared, &ints(1)), Ok(ints(1)));
    assert_eq!(methods.call("calls", &mut shared, &no_values()), Ok(ints(1)));
    assert_eq!(methods.call("calls", &mut shared, &no_values()), Ok(ints(2)));
    assert_eq!(methods.call_meta(&MetaMethod::Len, &mut shared, &no_values()), Ok(ints(11)));
}

#[test]
fn wrappers_declare_that_handles_can_be_cloned() {
    let mut table = TypeTable::new(TypeToken(5));
    <GuardedCell<Tally> as UserData>::on_metatable_init(&mut table);
    assert!(table.has_clone());
    assert!(!table.is(Capability::Send));
    let mut table = TypeTable::new(TypeToken(6));
    <SharedRef<Tally> as UserData>::on_metatable_init(&mut table);
    assert!(table.has_clone());
    let mut table = TypeTable::new(TypeToken(7));
    Tally::on_metatable_init(&mut table);
    assert!(table.is(Capability::Send));
    assert!(!table.has_clone());
}

#[test]
fn guarded_cell_guards() {
    let mut cell = GuardedCell::new(Tally { n: 1 });
    assert_eq!(cell.try_nonblocking_guarded_borrow(), Some(&Tally { n: 1 }));
    assert!(cell.try_nonblocking_guarded_mut_borrow_mut());
    assert_eq!(cell.try_nonblocking_guarded_borrow(), None);
    assert!(!cell.hold_shared());
    cell.guarded_mut().n = 2;
    cell.release_guarded_mut();
    assert_eq!(cell.try_nonblocking_guarded_borrow(), Some(&Tally { n: 2 }));
    let shared = SharedRef::new(Tally { n: 3 });
    assert_eq!(shared.try_nonblocking_guarded_borrow(), Some(&Tally { n: 3 }));
}

#[test]
fn registry_validate_accepts_open_names() {
    let mut methods = Tally::add_methods(StaticUserDataMethods::new());
    assert_eq!(methods.validate(), Ok(()));
    let mut fields = Tally::add_fields(StaticUserDataFields::new());
    assert_eq!(fields.validate(), Ok(()));
    assert_eq!(guarded_methods().validate(), Ok(()));
    let empty: StaticUserDataMethods<Tally> = StaticUserDataMethods::new();
    assert_eq!(empty.validate(), Ok(()));
}

#[test]
fn registry_validate_refuses_the_first_protected_metamethod() {
    let mut methods: StaticUserDataMethods<Tally> = StaticUserDataMethods::new();
    methods.add_method("__gc", Read);
    methods.add_meta_method(MetaMethod::Add, Read);
    assert_eq!(methods.validate(), Ok(()));
    methods.add_meta_method_mut(MetaMethod::from("__mlua_x"), Bump);
    methods.add_meta_function(MetaMethod::from("__gc"), Count);
    assert_eq!(methods.validate(), Err(Error::MetaMethodRestricted("__mlua_x".to_string())));

    let mut fields: StaticUserDataFields<Tally> = StaticUserDataFields::new();
    fields.add_field_method_get("__metatable", GetValue);
    assert_eq!(fields.validate(), Ok(()));
    fields.add_meta_field_with(MetaMethod::from("__metatable"), Count);
    assert_eq!(fields.validate(), Err(Error::MetaMethodRestricted("__metatable".to_string())));
}

#[test]
fn type_level_surface_is_empty_by_default() {
    let mut methods: StaticUserDataMethods<Type<Tally>> =
        Tally::add_type_methods(StaticUserDataMethods::new());
    assert_eq!(methods.len(), 0);
    let fields: StaticUserDataFields<Type<Tally>> =
        Tally::add_type_fields(StaticUserDataFields::new());
    assert_eq!(fields.len(), 0);
    let mut table = TypeTable::new(TypeToken(8));
    Tally::on_type_metatable_init(&mut table);
    assert!(!table.is(Capability::Send));
    let mut this = Type::<Tally>::of();
    assert_eq!(methods.call("new", &mut this, &no_values()), Err(nil_call()));
}

#[test]
fn registry_prefers_a_method_to_a_function_of_the_same_name() {
    let mut methods: StaticUserDataMethods<Tally> = StaticUserDataMethods::new();
    methods.add_method("m", Read);
    methods.add_function("m", Count);
    let mut tally = Tally { n: 4 };
    assert_eq!(methods.call("m", &mut tally, &no_values()), Ok(ints(4)));
    methods.add_meta_function(MetaMethod::Unm, Count);
    methods.add_meta_method(MetaMethod::Unm, Negate);
    methods.add_meta_function(MetaMethod::Unm, Count);
    assert_eq!(methods.call_meta(&MetaMethod::Unm, &mut tally, &no_values()), Ok(ints(-4)));
}

#[test]
fn field_registry_runs_the_last_getter_of_a_name() {
    let mut fields: StaticUserDataFields<Tally> = StaticUserDataFields::new();
    fields.add_field_method_get("value", GetValue);
    fields.add_field_function_get("value", Count);
    let tally = Tally { n: 6 };
    assert_eq!(fields.get("value", &tally), Ok(Value::Integer(6)));
    assert_eq!(fields.get("other", &tally), Ok(Value::Nil));
}
