//! Result and error structures that cross the boundary.

use vstd::prelude::*;

verus! {

#[verifier::external_type_specification]
#[verifier::external_body]
pub struct ExUtf8Error(core::str::Utf8Error);

/// Why a string handed in by the caller could not be taken over.
#[derive(Debug, PartialEq, Eq)]
pub enum Utf8OrEmptyError {
    /// The bytes are not UTF-8; the decoding error is kept.
    Utf8Error(core::str::Utf8Error),
    /// A null pointer stood where a string is required.
    Empty,
}

/// True of bytes that form a C string: one NUL, and it is the last byte.
pub open spec fn is_c_string(bytes: Seq<u8>) -> bool {
    &&& bytes.len() > 0
    &&& bytes.last() == 0u8
    &&& !bytes.drop_last().contains(0u8)
}

/// The C string that carries `text`, or `None` where `text` holds a NUL and
/// so cannot be carried by one.
pub open spec fn c_string_of(text: Seq<u8>) -> Option<Seq<u8>> {
    if text.contains(0u8) {
        None
    } else {
        Some(text.push(0u8))
    }
}

/// How the creation of a client handle ended.
#[derive(Clone, Copy, Debug, PartialEq, Eq, Structural)]
pub enum ECreateClientHandleCode {
    Success,
    ParameterError,
    ThreadCreationError,
    ConnectionTimedOutError,
    ConnectionToFailedError,
    ConnectionToClusterFailed,
    ConnectionIoError,
}

/// What the creation of a client handle hands back to the caller.
///
/// `client_handle` is the opaque token of the new handle, `None` standing for
/// the null handle. `error_string` is an owned C string, `None` standing for
/// the null pointer.
#[derive(Clone, Debug, PartialEq, Eq)]
pub struct CreateClientHandleResult {
    pub result: ECreateClientHandleCode,
    pub client_handle: Option<usize>,
    pub error_string: Option<Vec<u8>>,
}

impl CreateClientHandleResult {
    /// A handle exactly on success, and never a handle beside an error string.
    pub open spec fn wf(&self) -> bool {
        &&& self.result == ECreateClientHandleCode::Success <==> self.client_handle is Some
        &&& self.client_handle is Some ==> self.error_string is None
        &&& self.error_string matches Some(s) ==> is_c_string(s@)
    }

    /// The result of a successful creation.
    pub fn new_success(client_handle: usize) -> (res: CreateClientHandleResult)
        ensures
            res.result == ECreateClientHandleCode::Success,
            res.client_handle == Some(client_handle),
            res.error_string is None,
            res.wf(),
    {
        CreateClientHandleResult {
            result: ECreateClientHandleCode::Success,
            client_handle: Some(client_handle),
            error_string: None,
        }
    }

    /// The result of a failed creation.
    pub fn new_error(code: ECreateClientHandleCode, error_string: Option<Vec<u8>>) -> (res:
        CreateClientHandleResult)
        requires
            code != ECreateClientHandleCode::Success,
            error_string matches Some(s) ==> is_c_string(s@),
        ensures
            res.result == code,
            res.client_handle is None,
            res.error_string == error_string,
            res.wf(),
    {
        CreateClientHandleResult { result: code, client_handle: None, error_string }
    }
}

/// The immediate answer to a submitted command: accepted, or rejected with an
/// owned C string that says why (`None` standing for the null pointer).
#[derive(Clone, Debug, PartialEq, Eq)]
pub struct CommandResult {
    pub success: bool,
    pub error_string: Option<Vec<u8>>,
}

impl CommandResult {
    /// An accepted command carries no error string.
    pub open spec fn wf(&self) -> bool {
        &&& self.success ==> self.error_string is None
        &&& self.error_string matches Some(s) ==> is_c_string(s@)
    }

    /// The answer to an accepted command.
    pub fn new_success() -> (res: CommandResult)
        ensures
            res.success,
            res.error_string is None,
            res.wf(),
    {
        CommandResult { success: true, error_string: None }
    }

    /// The answer to a rejected command.
    pub fn new_error(error_string: Option<Vec<u8>>) -> (res: CommandResult)
        requires
            error_string matches Some(s) ==> is_c_string(s@),
        ensures
            !res.success,
            res.error_string == error_string,
            res.wf(),
    {
        CommandResult { success: false, error_string }
    }
}

} // verus!
