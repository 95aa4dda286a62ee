//! Verified core of a file-upload endpoint: path resolution against a served
//! root, file-name extraction from multipart headers, the per-request upload
//! state machine and the choice of the HTTP response.

pub mod error;
pub mod path;
pub mod disposition;
pub mod session;
pub mod response;
pub mod laws;
