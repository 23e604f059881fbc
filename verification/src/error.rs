//! Error codes shared by the trusted-application parameter API and the
//! client-side plugin API.
use vstd::prelude::*;

verus! {

/// The GlobalPlatform error kinds that this library reports.
#[derive(Clone, Copy, Debug, PartialEq, Eq, Structural)]
pub enum ErrorKind {
    /// Non-specific cause.
    Generic,
    /// Input parameters were invalid.
    BadParameters,
    /// Operation is not valid in the current state.
    BadState,
    /// The supplied buffer is too short for the generated output.
    ShortBuffer,
    /// The requested data item is not found.
    ItemNotFound,
    /// The operation is not supported.
    NotSupported,
}

impl ErrorKind {
    /// The raw `TEE_Result` / `TEEC_Result` code of this kind.
    pub open spec fn spec_raw_code(self) -> u32 {
        match self {
            ErrorKind::Generic => 0xFFFF0000u32,
            ErrorKind::BadParameters => 0xFFFF0006u32,
            ErrorKind::BadState => 0xFFFF0007u32,
            ErrorKind::ItemNotFound => 0xFFFF0008u32,
            ErrorKind::NotSupported => 0xFFFF000Au32,
            ErrorKind::ShortBuffer => 0xFFFF0010u32,
        }
    }

    /// Returns the raw result code of this kind.
    pub fn raw_code(&self) -> (code: u32)
        ensures
            code == self.spec_raw_code(),
    {
        match self {
            ErrorKind::Generic => 0xFFFF0000u32,
            ErrorKind::BadParameters => 0xFFFF0006u32,
            ErrorKind::BadState => 0xFFFF0007u32,
            ErrorKind::ItemNotFound => 0xFFFF0008u32,
            ErrorKind::NotSupported => 0xFFFF000Au32,
            ErrorKind::ShortBuffer => 0xFFFF0010u32,
        }
    }
}

/// An error carrying one [`ErrorKind`].
#[derive(Clone, Copy, Debug, PartialEq, Eq, Structural)]
pub struct Error {
    pub code: ErrorKind,
}

impl Error {
    /// Creates an error of the given kind.
    pub fn new(kind: ErrorKind) -> (e: Error)
        ensures
            e.code == kind,
    {
        Error { code: kind }
    }

    /// The kind of this error.
    pub fn kind(&self) -> (k: ErrorKind)
        ensures
            k == self.code,
    {
        self.code
    }

    /// The raw result code of this error.
    pub fn raw_code(&self) -> (code: u32)
        ensures
            code == self.code.spec_raw_code(),
    {
        self.code.raw_code()
    }
}

/// The result type of the parameter and plugin APIs.
pub type Result<T> = core::result::Result<T, Error>;

/// The error value of a given kind, for use in contracts.
pub open spec fn err_of<T>(kind: ErrorKind) -> Result<T> {
    Err(Error { code: kind })
}

} // verus!
