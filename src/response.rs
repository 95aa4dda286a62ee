use vstd::prelude::*;
use crate::error::{ErrorKind, PathProblem, UploadError};

verus! {

pub const SEE_OTHER: u16 = 303;

pub const BAD_REQUEST: u16 = 400;

pub const INTERNAL_SERVER_ERROR: u16 = 500;

pub const TAB: u8 = 9;

/// A byte that `http`'s `HeaderValue::to_str` accepts: visible ASCII or a tab.
pub open spec fn is_visible_ascii(b: u8) -> bool {
    (32 <= b && b < 127) || b == TAB
}

/// Where to send the browser after a successful upload: the `Referer` header
/// when it is present and readable as text, otherwise `/`.
pub open spec fn return_path_of(referer: Option<Seq<u8>>) -> Seq<u8> {
    match referer {
        Some(r) if forall|i: int| 0 <= i < r.len() ==> is_visible_ascii(#[trigger] r[i]) => r,
        _ => seq![47u8],
    }
}

/// The return path for a request, from the raw bytes of its `Referer` header.
pub fn return_path(referer: Option<Vec<u8>>) -> (r: Vec<u8>)
    ensures
        r@ == return_path_of(match referer {
            Some(v) => Some(v@),
            None => None,
        }),
{
    match referer {
        None => vec![47u8],
        Some(v) => {
            let mut i: usize = 0;
            while i < v.len()
                invariant
                    referer == Some(v),
                    i <= v.len(),
                    forall|k: int| 0 <= k < i ==> is_visible_ascii(#[trigger] v@[k]),
                decreases v.len() - i,
            {
                let b = v[i];
                if !((32 <= b && b < 127) || b == TAB) {
                    assert(!is_visible_ascii(v@[i as int]));
                    return vec![47u8];
                }
                i = i + 1;
            }
            v
        },
    }
}

/// The status shown on the error page: `400` for a bad `path` parameter,
/// `500` for every server-side or upload failure.
pub open spec fn shown_code(k: ErrorKind) -> u16 {
    if k == ErrorKind::InvalidPath {
        BAD_REQUEST
    } else {
        INTERNAL_SERVER_ERROR
    }
}

/// The text shown to the user for a failure.
pub open spec fn message(e: UploadError) -> Seq<char> {
    match e {
        UploadError::InvalidPath(PathProblem::Missing) => "Missing query parameter 'path'"@,
        UploadError::InvalidPath(PathProblem::OutsideRoot) => "Invalid value for 'path' parameter"@,
        UploadError::NotADirectory => "Cannot upload files, since the target is not a directory"@,
        UploadError::InsufficientPermissions => "Insufficient permissions to write to the target directory"@,
        UploadError::ServerMisconfigured => "Failed to resolve the path served by the server"@,
        UploadError::ParseError => "Failed to retrieve the name of the file to upload"@,
        UploadError::AlreadyExists => "File already exists, and the overwrite_files option has not been set"@,
        UploadError::IoError(_) => "Failed to write the uploaded file"@,
        UploadError::TransportError(_) => "Failed to read the multipart request body"@,
    }
}

impl UploadError {
    /// The text shown to the user for this failure.
    pub fn description(&self) -> (r: String)
        ensures
            r@ == message(*self),
    {
        match self {
            UploadError::InvalidPath(PathProblem::Missing) => "Missing query parameter 'path'".to_string(),
            UploadError::InvalidPath(PathProblem::OutsideRoot) => "Invalid value for 'path' parameter".to_string(),
            UploadError::NotADirectory => "Cannot upload files, since the target is not a directory".to_string(),
            UploadError::InsufficientPermissions => "Insufficient permissions to write to the target directory".to_string(),
            UploadError::ServerMisconfigured => "Failed to resolve the path served by the server".to_string(),
            UploadError::ParseError => "Failed to retrieve the name of the file to upload".to_string(),
            UploadError::AlreadyExists => "File already exists, and the overwrite_files option has not been set".to_string(),
            UploadError::IoError(_) => "Failed to write the uploaded file".to_string(),
            UploadError::TransportError(_) => "Failed to read the multipart request body".to_string(),
        }
    }

    /// The status shown on the error page for this failure.
    pub fn shown_status(&self) -> (r: u16)
        ensures
            r == shown_code(self.kind()),
    {
        match self {
            UploadError::InvalidPath(_) => BAD_REQUEST,
            _ => INTERNAL_SERVER_ERROR,
        }
    }
}

/// What the error page is rendered from.
#[derive(Debug)]
pub struct ErrorPage {
    pub description: String,
    /// The status the page shows.
    pub code: u16,
    pub return_path: Vec<u8>,
}

/// The HTTP response to an upload request.
#[derive(Debug)]
pub enum Response {
    /// `303 See Other` to this location.
    Redirect(Vec<u8>),
    /// An HTML error page. It is sent with status `400` whatever the failure,
    /// as browsers of this server have always received it; the page itself
    /// shows the status that fits the failure.
    Error(ErrorPage),
}

impl Response {
    /// The HTTP status the response is sent with.
    pub fn status(&self) -> (r: u16)
        ensures
            r == (match self {
                Response::Redirect(_) => SEE_OTHER,
                Response::Error(_) => BAD_REQUEST,
            }),
    {
        match self {
            Response::Redirect(_) => SEE_OTHER,
            Response::Error(_) => BAD_REQUEST,
        }
    }
}

/// The response for a finished request: a redirect to the return path on
/// success, the error page of the failure otherwise.
pub fn respond(outcome: Result<(), UploadError>, return_path: Vec<u8>) -> (r: Response)
    ensures
        match outcome {
            Ok(_) => r is Redirect && r->Redirect_0@ == return_path@,
            Err(e) => r is Error && r->Error_0.description@ == message(e) && r->Error_0.code
                == shown_code(e.kind()) && r->Error_0.return_path@ == return_path@,
        },
{
    match outcome {
        Ok(_) => Response::Redirect(return_path),
        Err(e) => Response::Error(
            ErrorPage { description: e.description(), code: e.shown_status(), return_path },
        ),
    }
}

} // verus!
