//! Error taxonomy of the library, and the mapping from a native layer's
//! status report to a library result.

use vstd::prelude::*;

verus! {

/// Errors reported by the library.
///
/// `InvalidArgument` means a caller-supplied string held an embedded null
/// byte and was rejected before anything was handed to the native layer.
/// `Runtime(code, message)` surfaces a failure that the native layer
/// reported: its signed error code and the human-readable message fetched
/// from its most-recent-failure slot at the moment of failure.
#[derive(Debug, Clone, PartialEq, Eq)]
pub enum Error {
    InvalidArgument,
    Runtime(i32, String),
}

impl Error {
    /// A human-readable description of the error: the fixed text for a
    /// rejected argument, or the native layer's message verbatim.
    pub fn description(&self) -> (r: String)
        ensures
            self is InvalidArgument ==> r@ == "string contains an embedded null byte"@,
            self matches Error::Runtime(_, message) ==> r@ == message@,
    {
        match self {
            Error::InvalidArgument => "string contains an embedded null byte".to_owned(),
            Error::Runtime(_, message) => message.clone(),
        }
    }
}

/// Maps a native status report onto a library result: status code zero means
/// the call succeeded and `value` is the result; any other code means the
/// native layer failed, and the failure surfaces verbatim as
/// `Runtime(code, message)`, where `message` was fetched from the native
/// layer's last-error slot.
pub fn ffi_result<T>(value: T, code: i32, message: String) -> (r: Result<T, Error>)
    ensures
        code == 0 ==> (r matches Ok(v) && v == value),
        code != 0 ==> r == Err::<T, Error>(Error::Runtime(code, message)),
{
    if code == 0 {
        Ok(value)
    } else {
        Err(Error::Runtime(code, message))
    }
}

} // verus!
