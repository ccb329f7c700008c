//! Error kinds used by the shim and their mapping to task-RPC status codes.

use vstd::prelude::*;

verus! {

/// Status codes of the task RPC surface.
#[derive(Clone, Copy, Debug, PartialEq, Eq, Structural)]
pub enum Code {
    Unknown,
    InvalidArgument,
    NotFound,
    AlreadyExists,
    FailedPrecondition,
    Unimplemented,
    Internal,
}

/// An RPC status: a code plus a human-readable message.
#[derive(Debug)]
pub struct Status {
    pub code: Code,
    pub message: String,
}

impl Status {
    pub fn code(&self) -> (c: Code)
        ensures
            c == self.code,
    {
        self.code
    }

    pub fn unimplemented(message: String) -> (s: Status)
        ensures
            s.code == Code::Unimplemented,
            s.message@ == message@,
    {
        Status { code: Code::Unimplemented, message }
    }

    pub fn invalid_argument(message: String) -> (s: Status)
        ensures
            s.code == Code::InvalidArgument,
            s.message@ == message@,
    {
        Status { code: Code::InvalidArgument, message }
    }

    pub fn not_found(message: String) -> (s: Status)
        ensures
            s.code == Code::NotFound,
            s.message@ == message@,
    {
        Status { code: Code::NotFound, message }
    }

    pub fn already_exists(message: String) -> (s: Status)
        ensures
            s.code == Code::AlreadyExists,
            s.message@ == message@,
    {
        Status { code: Code::AlreadyExists, message }
    }

    pub fn failed_precondition(message: String) -> (s: Status)
        ensures
            s.code == Code::FailedPrecondition,
            s.message@ == message@,
    {
        Status { code: Code::FailedPrecondition, message }
    }

    pub fn unknown(message: String) -> (s: Status)
        ensures
            s.code == Code::Unknown,
            s.message@ == message@,
    {
        Status { code: Code::Unknown, message }
    }
}

/// Error kinds raised by the task service and the instance engine.
///
/// Parsing and filesystem failures carry the underlying message as text;
/// `Ttrpc` carries a status that passes through the RPC boundary unchanged.
#[derive(Debug)]
pub enum Error {
    /// An error from parsing an OCI runtime or image spec.
    Oci(String),
    /// An error from setting up the container environment.
    Stdio(String),
    Others(String),
    /// A status from the shim RPC machinery itself.
    Ttrpc(Status),
    /// The requested item is not in the task map.
    NotFound(String),
    /// A task with the requested id is already in the task map.
    AlreadyExists(String),
    /// The supplied arguments, options or config are invalid.
    InvalidArgument(String),
    Any(String),
    /// The task is not in a state that allows the operation.
    FailedPrecondition(String),
    /// An error from parsing JSON content.
    Json(String),
    /// An upstream failure of the containerd daemon.
    Containerd(String),
    /// An error from the container build or runtime layer.
    Libcontainer(String),
}

/// The spec-level code an error maps to at the RPC boundary.
pub open spec fn spec_status_code(e: &Error) -> Code {
    match e {
        Error::Ttrpc(s) => s.code,
        Error::NotFound(_) => Code::NotFound,
        Error::AlreadyExists(_) => Code::AlreadyExists,
        Error::InvalidArgument(_) => Code::InvalidArgument,
        Error::FailedPrecondition(_) => Code::FailedPrecondition,
        _ => Code::Unknown,
    }
}

/// The spec-level message an error maps to at the RPC boundary: the
/// carried string, passed through unchanged.
pub open spec fn spec_status_message(e: &Error) -> Seq<char> {
    match e {
        Error::Oci(s) => s@,
        Error::Stdio(s) => s@,
        Error::Others(s) => s@,
        Error::Ttrpc(s) => s.message@,
        Error::NotFound(s) => s@,
        Error::AlreadyExists(s) => s@,
        Error::InvalidArgument(s) => s@,
        Error::Any(s) => s@,
        Error::FailedPrecondition(s) => s@,
        Error::Json(s) => s@,
        Error::Containerd(s) => s@,
        Error::Libcontainer(s) => s@,
    }
}

impl Error {
    /// Maps the error to the status returned over the task RPC: the four
    /// caller-fault kinds keep their code, a wrapped status passes through,
    /// and every other kind surfaces as `Unknown`.
    pub fn into_status(self) -> (s: Status)
        ensures
            s.code == spec_status_code(&self),
            s.message@ == spec_status_message(&self),
    {
        match self {
            Error::Ttrpc(s) => s,
            Error::NotFound(s) => Status::not_found(s),
            Error::AlreadyExists(s) => Status::already_exists(s),
            Error::InvalidArgument(s) => Status::invalid_argument(s),
            Error::FailedPrecondition(s) => Status::failed_precondition(s),
            Error::Oci(s) => Status::unknown(s),
            Error::Stdio(s) => Status::unknown(s),
            Error::Others(s) => Status::unknown(s),
            Error::Any(s) => Status::unknown(s),
            Error::Json(s) => Status::unknown(s),
            Error::Containerd(s) => Status::unknown(s),
            Error::Libcontainer(s) => Status::unknown(s),
        }
    }
}

} // verus!
