use vstd::prelude::*;

verus! {

/// The failure taxonomy of the execution core.
///
/// Every fallible operation of the library returns one of these values and
/// propagates it unchanged to the caller: interpreters perform no local
/// recovery or retry.
#[derive(Clone, Copy, Debug, PartialEq, Eq, Structural)]
pub enum ErrorCode {
    /// The referenced principal is not present in the privilege store.
    UnknownUser,
    /// The (name, host pattern) key is already registered.
    UserAlreadyExists,
    /// The privilege store could not be reached.
    StoreUnreachable,
    /// The settings store does not recognize the requested key.
    UnknownSetting,
    /// The requested setting value is outside the validated range.
    InvalidSettingValue,
}

pub type ExecResult<T> = Result<T, ErrorCode>;

} // verus!
