use vstd::prelude::*;

verus! {

/// What an operation on userdata reports when it cannot be carried out.
///
/// Every failure is returned to the immediate caller; nothing in this crate panics or retries.
#[derive(Debug, Clone, PartialEq, Eq)]
pub enum Error {
    /// The stored value is not of the requested type, or the handle names no userdata.
    UserDataTypeMismatch,
    /// The stored value's type does not declare the requested capability.
    UserDataDynMismatch,
    /// The value was already taken out of the userdata.
    UserDataDestructed,
    /// A shared view was requested while an exclusive view is outstanding.
    UserDataBorrowError,
    /// An exclusive view was requested while another view is outstanding.
    UserDataBorrowMutError,
    /// A proxy could not get a shared guard on the value it wraps.
    UserDataProxyBorrowError,
    /// A proxy could not, or may not, get an exclusive guard on the value it wraps.
    UserDataProxyBorrowMutError,
    /// A protected or cached metamethod was named; the field holds its name.
    MetaMethodRestricted(String),
    /// A violation of the interface, such as a user value index out of bounds.
    RuntimeError(String),
    /// A runtime value could not be converted to a host type.
    FromLuaConversionError {
        /// Name of the runtime type of the value.
        from: &'static str,
        /// Name of the host type asked for.
        to: &'static str,
        /// An optional explanation.
        message: Option<String>,
    },
}

impl Error {
    /// Whether the error reports contention on a cell's borrow flag.
    pub open spec fn is_borrow_error(&self) -> bool {
        *self == Error::UserDataBorrowError || *self == Error::UserDataBorrowMutError
    }

    /// Whether the error was raised by a proxy when it asked its wrapper for a guard.
    pub open spec fn is_proxy_error(&self) -> bool {
        *self == Error::UserDataProxyBorrowError || *self == Error::UserDataProxyBorrowMutError
    }
}

} // verus!
