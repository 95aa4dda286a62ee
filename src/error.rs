use vstd::prelude::*;

verus! {

/// Why the `path` query parameter was refused.
#[derive(Clone, Copy, Debug, PartialEq, Eq, Structural)]
pub enum PathProblem {
    /// The request carries no `path` query parameter.
    Missing,
    /// The parameter does not name a directory at or below the served root.
    OutsideRoot,
}

/// The kind of an upload failure, without its context.
#[derive(Clone, Copy, Debug, PartialEq, Eq, Structural)]
pub enum ErrorKind {
    InvalidPath,
    NotADirectory,
    InsufficientPermissions,
    ServerMisconfigured,
    ParseError,
    AlreadyExists,
    IoError,
    TransportError,
}

/// What went wrong with a filesystem call, for logging.
#[derive(Clone, Debug)]
pub struct IoFailure {
    /// Components of the path the call was made on.
    pub path: Vec<Vec<u8>>,
    /// The operating system's description of the failure.
    pub detail: String,
}

/// Every failure of an upload request; each one ends the request.
#[derive(Clone, Debug)]
pub enum UploadError {
    InvalidPath(PathProblem),
    NotADirectory,
    InsufficientPermissions,
    ServerMisconfigured,
    ParseError,
    AlreadyExists,
    IoError(IoFailure),
    TransportError(String),
}

impl UploadError {
    pub open spec fn kind(&self) -> ErrorKind {
        match self {
            UploadError::InvalidPath(_) => ErrorKind::InvalidPath,
            UploadError::NotADirectory => ErrorKind::NotADirectory,
            UploadError::InsufficientPermissions => ErrorKind::InsufficientPermissions,
            UploadError::ServerMisconfigured => ErrorKind::ServerMisconfigured,
            UploadError::ParseError => ErrorKind::ParseError,
            UploadError::AlreadyExists => ErrorKind::AlreadyExists,
            UploadError::IoError(_) => ErrorKind::IoError,
            UploadError::TransportError(_) => ErrorKind::TransportError,
        }
    }

    /// The kind of this failure.
    pub fn error_kind(&self) -> (r: ErrorKind)
        ensures
            r == self.kind(),
    {
        match self {
            UploadError::InvalidPath(_) => ErrorKind::InvalidPath,
            UploadError::NotADirectory => ErrorKind::NotADirectory,
            UploadError::InsufficientPermissions => ErrorKind::InsufficientPermissions,
            UploadError::ServerMisconfigured => ErrorKind::ServerMisconfigured,
            UploadError::ParseError => ErrorKind::ParseError,
            UploadError::AlreadyExists => ErrorKind::AlreadyExists,
            UploadError::IoError(_) => ErrorKind::IoError,
            UploadError::TransportError(_) => ErrorKind::TransportError,
        }
    }
}

} // verus!
