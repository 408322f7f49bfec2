use vstd::prelude::*;
use crate::userdata::AnyUserData;

verus! {

/// Reference to a string owned by the runtime.
#[derive(Clone, Copy, Debug, PartialEq, Eq, Structural)]
pub struct StringRef(pub u64);

/// Reference to a table owned by the runtime.
#[derive(Clone, Copy, Debug, PartialEq, Eq, Structural)]
pub struct TableRef(pub u64);

/// Reference to a function owned by the runtime.
#[derive(Clone, Copy, Debug, PartialEq, Eq, Structural)]
pub struct FunctionRef(pub u64);

/// A value of the scripting runtime.
///
/// Strings, tables and functions are owned by the runtime and appear here as references, so a
/// value is small and can be copied freely.
#[derive(Clone, Copy, Debug, PartialEq, Eq, Structural)]
pub enum Value {
    /// The absent value.
    Nil,
    /// A truth value.
    Boolean(bool),
    /// An integer.
    Integer(i64),
    /// A string of the runtime.
    String(StringRef),
    /// A table of the runtime.
    Table(TableRef),
    /// A function of the runtime.
    Function(FunctionRef),
    /// A userdata.
    UserData(AnyUserData),
}

impl Value {
    /// The runtime's name for the type of a value.
    pub open spec fn kind_name_spec(&self) -> Seq<char> {
        match self {
            Value::Nil => "nil"@,
            Value::Boolean(_) => "boolean"@,
            Value::Integer(_) => "integer"@,
            Value::String(_) => "string"@,
            Value::Table(_) => "table"@,
            Value::Function(_) => "function"@,
            Value::UserData(_) => "userdata"@,
        }
    }

    /// Returns the runtime's name for the type of the value.
    pub fn kind_name(&self) -> (r: &'static str)
        ensures
            r@ == self.kind_name_spec(),
    {
        match self {
            Value::Nil => "nil",
            Value::Boolean(_) => "boolean",
            Value::Integer(_) => "integer",
            Value::String(_) => "string",
            Value::Table(_) => "table",
            Value::Function(_) => "function",
            Value::UserData(_) => "userdata",
        }
    }

    /// Whether the value is `Nil`.
    pub fn is_nil(&self) -> (r: bool)
        ensures
            r == (*self == Value::Nil),
    {
        match self {
            Value::Nil => true,
            _ => false,
        }
    }
}

} // verus!
