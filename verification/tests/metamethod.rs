use userdata::strings::{starts_with, str_eq};
use userdata::{Error, MetaMethod};

fn all_operators() -> Vec<(MetaMethod, &'static str)> {
    vec![
        (MetaMethod::Add, "__add"),
        (MetaMethod::Sub, "__sub"),
        (MetaMethod::Mul, "__mul"),
        (MetaMethod::Div, "__div"),
        (MetaMethod::Mod, "__mod"),
        (MetaMethod::Pow, "__pow"),
        (MetaMethod::Unm, "__unm"),
        (MetaMethod::IDiv, "__idiv"),
        (MetaMethod::BAnd, "__band"),
        (MetaMethod::BOr, "__bor"),
        (MetaMethod::BXor, "__bxor"),
        (MetaMethod::BNot, "__bnot"),
        (MetaMethod::Shl, "__shl"),
        (MetaMethod::Shr, "__shr"),
        (MetaMethod::Concat, "__concat"),
        (MetaMethod::Len, "__len"),
        (MetaMethod::Eq, "__eq"),
        (MetaMethod::Lt, "__lt"),
        (MetaMethod::Le, "__le"),
        (MetaMethod::Index, "__index"),
        (MetaMethod::NewIndex, "__newindex"),
        (MetaMethod::Call, "__call"),
        (MetaMethod::ToString, "__tostring"),
        (MetaMethod::Pairs, "__pairs"),
        (MetaMethod::IPairs, "__ipairs"),
        (MetaMethod::Close, "__close"),
    ]
}

#[test]
fn operator_names_are_as_documented() {
    for (meta, name) in all_operators() {
        assert_eq!(meta.name(), name);
    }
}

#[test]
fn custom_name_is_its_own_name() {
    assert_eq!(MetaMethod::Custom("__whatever".to_string()).name(), "__whatever");
    assert_eq!(MetaMethod::Custom(String::new()).name(), "");
}

#[test]
fn from_string_finds_every_operator() {
    for (meta, name) in all_operators() {
        let read = MetaMethod::from(name.to_string());
        assert!(!matches!(read, MetaMethod::Custom(_)), "{} was read as custom", name);
        assert_eq!(read.name(), name);
        assert!(read == meta);
    }
}

#[test]
fn from_str_finds_every_operator() {
    for (meta, name) in all_operators() {
        let read = MetaMethod::from(name);
        assert!(!matches!(read, MetaMethod::Custom(_)));
        assert!(read == meta);
    }
}

#[test]
fn from_unknown_name_is_custom() {
    assert!(matches!(MetaMethod::from("__frobnicate"), MetaMethod::Custom(ref n) if n == "__frobnicate"));
    assert!(matches!(MetaMethod::from("add".to_string()), MetaMethod::Custom(ref n) if n == "add"));
    assert!(matches!(MetaMethod::from("__ad"), MetaMethod::Custom(_)));
    assert!(matches!(MetaMethod::from("__addx"), MetaMethod::Custom(_)));
    assert!(matches!(MetaMethod::from(""), MetaMethod::Custom(_)));
}

#[test]
fn name_round_trips_through_from() {
    for (meta, _) in all_operators() {
        let again = MetaMethod::from(meta.name());
        assert!(again == meta);
    }
    let custom = MetaMethod::from("__mine");
    assert_eq!(MetaMethod::from(custom.name()).name(), "__mine");
}

#[test]
fn equality_goes_by_name() {
    assert!(MetaMethod::Custom("__add".to_string()) == MetaMethod::Add);
    assert!(MetaMethod::Add == MetaMethod::Custom("__add".to_string()));
    assert!(MetaMethod::Add != MetaMethod::Sub);
    assert!(MetaMethod::Custom("a".to_string()) != MetaMethod::Custom("b".to_string()));
    assert!(MetaMethod::Custom("a".to_string()) == MetaMethod::Custom("a".to_string()));
}

#[test]
fn validate_rejects_gc() {
    assert_eq!(
        MetaMethod::from("__gc").validate().err(),
        Some(Error::MetaMethodRestricted("__gc".to_string()))
    );
}

#[test]
fn validate_rejects_metatable() {
    assert_eq!(
        MetaMethod::from("__metatable").validate().err(),
        Some(Error::MetaMethodRestricted("__metatable".to_string()))
    );
}

#[test]
fn validate_rejects_internal_prefix() {
    for name in ["__mlua", "__mlua_index", "__mluaX", "__mlua__gc"] {
        assert_eq!(
            MetaMethod::from(name).validate().err(),
            Some(Error::MetaMethodRestricted(name.to_string())),
            "{} was accepted",
            name
        );
    }
}

#[test]
fn validate_accepts_what_is_not_protected() {
    for name in ["__mlu", "_mlua", "__gcx", "__g", "__metatabl", "__metatables", "x__gc", "", "__MLUA"] {
        let checked = MetaMethod::from(name).validate();
        assert!(checked.is_ok(), "{} was rejected", name);
        assert_eq!(checked.unwrap().name(), name);
    }
}

#[test]
fn validate_accepts_every_operator() {
    for (meta, name) in all_operators() {
        let checked = meta.validate();
        assert!(checked.is_ok());
        assert_eq!(checked.unwrap().name(), name);
    }
}

#[test]
fn validate_keeps_a_custom_spelling_of_an_operator() {
    let checked = MetaMethod::Custom("__index".to_string()).validate().unwrap();
    assert!(matches!(checked, MetaMethod::Custom(ref n) if n == "__index"));
}

#[test]
fn cached_names_are_index_and_newindex() {
    assert!(MetaMethod::Index.is_cached());
    assert!(MetaMethod::NewIndex.is_cached());
    assert!(MetaMethod::Custom("__index".to_string()).is_cached());
    assert!(!MetaMethod::Add.is_cached());
    assert!(!MetaMethod::Custom("__indexx".to_string()).is_cached());
}

#[test]
fn string_helpers_compare_characters() {
    assert!(str_eq("", ""));
    assert!(str_eq("héllo", "héllo"));
    assert!(!str_eq("hello", "hellp"));
    assert!(!str_eq("hello", "hell"));
    assert!(starts_with("__mlua", "__mlua"));
    assert!(starts_with("héllo", "hé"));
    assert!(starts_with("abc", ""));
    assert!(!starts_with("ab", "abc"));
    assert!(!starts_with("abd", "abc"));
}
