//! Exposure of host objects to an embedded scripting runtime as opaque userdata.
//!
//! Every exposed value lives in a [`UserDataCell`], a store with a run-time borrow flag that
//! admits either any number of shared views or one exclusive view. The runtime holds
//! [`AnyUserData`] handles, which name a place in the [`Lua`] storage and never own the value.
//! Types describe their callable surface through [`UserDataMethods`] and [`UserDataFields`],
//! and wrappers that guard an inner value re-expose that surface through
//! [`UserDataMethodsProxy`] and [`UserDataFieldsProxy`].

pub mod borrow;
pub mod cell;
pub mod error;
pub mod lua;
pub mod metamethod;
pub mod metatable;
pub mod methods;
pub mod proxy;
pub mod strings;
pub mod surface;
pub mod sync;
pub mod table;
pub mod types;
pub mod userdata;
pub mod uservalues;
pub mod value;

pub use crate::borrow::{BorrowFlag, BorrowOp};
pub use crate::cell::{HostValue, UserDataCell};
pub use crate::error::Error;
pub use crate::lua::Lua;
pub use crate::metamethod::MetaMethod;
pub use crate::metatable::{UserDataMetatable, UserDataMetatablePairs};
pub use crate::methods::{
    EntryKind, FieldGetter, FieldSetter, Function, FunctionMut, Method, MethodMut, UserData,
    UserDataFields, UserDataMethods,
};
pub use crate::proxy::{
    Immutable, Mutable, NonBlockingGuardedBorrow, NonBlockingGuardedMutBorrowMut,
    UserDataFieldsProxy, UserDataMethodsProxy,
};
pub use crate::surface::{StaticUserDataFields, StaticUserDataMethods};
pub use crate::sync::{GuardedCell, SharedRef};
pub use crate::table::Table;
pub use crate::types::{Capability, Type, TypeTable, TypeToken};
pub use crate::userdata::{AnyUserData, TryCloneToUserDataExt, UserDataRef, UserDataRefMut};
pub use crate::value::{FunctionRef, StringRef, TableRef, Value};
