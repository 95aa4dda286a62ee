use vstd::prelude::*;
use crate::error::UploadError;
use crate::path::SLASH;
use actix_web::http::header::{ContentDisposition, HeaderValue};

verus! {

/// The `filename` parameter, as bytes, that actix-web reads from a raw
/// `Content-Disposition` header value (`None` when the header does not parse
/// or has no such parameter).
pub uninterp spec fn disposition_filename(raw: Seq<u8>) -> Option<Seq<u8>>;

/// Relies on actix-web's `ContentDisposition::from_raw` and `get_filename`:
/// the file name found in the header depends on the header's bytes alone.
#[verifier::external_body]
fn parse_disposition_filename(raw: &[u8]) -> (r: Option<Vec<u8>>)
    ensures
        match r {
            Some(f) => disposition_filename(raw@) == Some(f@),
            None => disposition_filename(raw@) is None,
        },
{
    let hv = HeaderValue::from_bytes(raw).ok()?;
    let cd = ContentDisposition::from_raw(&hv).ok()?;
    cd.get_filename().map(|f| f.as_bytes().to_vec())
}

pub const NUL: u8 = 0;

pub const DOT: u8 = 46;

/// A name that, joined onto a directory, names an entry of that directory:
/// not empty, not `.` or `..`, and free of `/` and NUL.
pub open spec fn is_plain_name(f: Seq<u8>) -> bool {
    &&& f.len() > 0
    &&& f != seq![DOT]
    &&& f != seq![DOT, DOT]
    &&& forall|i: int| 0 <= i < f.len() ==> f[i] != SLASH && f[i] != NUL
}

/// The file name that a part's `Content-Disposition` header (if any) gives.
pub open spec fn part_name(header: Option<Seq<u8>>) -> Option<Seq<u8>> {
    match header {
        None => None,
        Some(h) => match disposition_filename(h) {
            Some(f) if is_plain_name(f) => Some(f),
            _ => None,
        },
    }
}

/// Accepts a file name read from a header only where it names an entry of
/// the upload directory; anything else is a parse error.
pub fn check_file_name(parsed: Option<Vec<u8>>) -> (r: Result<Vec<u8>, UploadError>)
    ensures
        parsed is Some && is_plain_name(parsed->Some_0@) ==> r is Ok && r->Ok_0@
            == parsed->Some_0@,
        !(parsed is Some && is_plain_name(parsed->Some_0@)) ==> r is Err && r->Err_0
            == UploadError::ParseError,
{
    let f = match parsed {
        None => return Err(UploadError::ParseError),
        Some(f) => f,
    };
    if f.len() == 0 {
        return Err(UploadError::ParseError);
    }
    if f.len() == 1 && f[0] == DOT {
        assert(f@ =~= seq![DOT]);
        return Err(UploadError::ParseError);
    }
    if f.len() == 2 && f[0] == DOT && f[1] == DOT {
        assert(f@ =~= seq![DOT, DOT]);
        return Err(UploadError::ParseError);
    }
    let mut i: usize = 0;
    while i < f.len()
        invariant
            parsed == Some(f),
            i <= f.len(),
            forall|k: int| 0 <= k < i ==> f@[k] != SLASH && f@[k] != NUL,
        decreases f.len() - i,
    {
        if f[i] == SLASH || f[i] == NUL {
            assert(!is_plain_name(f@)) by {
                assert(f@[i as int] == SLASH || f@[i as int] == NUL);
            }
            return Err(UploadError::ParseError);
        }
        i = i + 1;
    }
    proof {
        if f@ == seq![DOT] {
            assert(f@.len() == 1);
        }
        if f@ == seq![DOT, DOT] {
            assert(f@.len() == 2);
        }
    }
    Ok(f)
}

/// The name under which a part is stored, from its raw `Content-Disposition`
/// header value; a missing header, one without a file name, or a name that
/// would leave the upload directory is a parse error.
pub fn file_name_of_part(header: &Option<Vec<u8>>) -> (r: Result<Vec<u8>, UploadError>)
    ensures
        match part_name(opt_bytes(*header)) {
            Some(f) => r is Ok && r->Ok_0@ == f,
            None => r is Err && r->Err_0 == UploadError::ParseError,
        },
{
    match header {
        None => Err(UploadError::ParseError),
        Some(h) => check_file_name(parse_disposition_filename(h.as_slice())),
    }
}

pub open spec fn opt_bytes(v: Option<Vec<u8>>) -> Option<Seq<u8>> {
    match v {
        Some(x) => Some(x@),
        None => None,
    }
}

} // verus!
