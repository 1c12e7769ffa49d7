//! The remote file service's side of the protocol: where requests go, and
//! what each answer means.

use vstd::prelude::*;

use crate::text::{ends_with, opt_view, strip_suffix};

verus! {

/// Whether an HTTP status is a success (2xx).
pub open spec fn is_success(status: u16) -> bool {
    200 <= status < 300
}

/// The HTTP status for a missing resource.
pub const NOT_FOUND: u16 = 404;

/// What a status check says about a remote file.
#[derive(Debug, Clone, Copy, PartialEq, Eq, Structural)]
pub enum RemoteStatus {
    /// The file is present and ready for use.
    Active,
    /// The service no longer has the file.
    Gone,
    /// The answer does not settle it (another state, an error, no answer).
    Unknown,
}

/// The meaning of a status-check answer: a success whose `state` is
/// `ACTIVE` means active, "not found" means gone, anything else is unknown.
pub open spec fn check_outcome(status: u16, state: Option<Seq<char>>) -> RemoteStatus {
    if is_success(status) {
        if state == Some("ACTIVE"@) {
            RemoteStatus::Active
        } else {
            RemoteStatus::Unknown
        }
    } else if status == NOT_FOUND {
        RemoteStatus::Gone
    } else {
        RemoteStatus::Unknown
    }
}

/// Interprets the answer to a status check: its HTTP status, and the
/// `state` field of its body where the body had one.
pub fn check_status(status: u16, state: Option<String>) -> (r: RemoteStatus)
    ensures
        r == check_outcome(status, opt_view(state)),
{
    if 200 <= status && status < 300 {
        match state {
            Some(s) => {
                let active = "ACTIVE".to_owned();
                if s.eq(&active) {
                    RemoteStatus::Active
                } else {
                    RemoteStatus::Unknown
                }
            },
            None => RemoteStatus::Unknown,
        }
    } else if status == NOT_FOUND {
        RemoteStatus::Gone
    } else {
        RemoteStatus::Unknown
    }
}

/// The host part of an API base URL: the base without a trailing API
/// version (`/v1beta`, else `/v1`).
pub open spec fn upload_host(base: Seq<char>) -> Seq<char> {
    if ends_with(base, "/v1beta"@) {
        base.subrange(0, base.len() - "/v1beta"@.len())
    } else if ends_with(base, "/v1"@) {
        base.subrange(0, base.len() - "/v1"@.len())
    } else {
        base
    }
}

/// Where an upload session is started.
pub open spec fn upload_start_url_of(base: Seq<char>, api_key: Seq<char>) -> Seq<char> {
    upload_host(base) + "/upload/v1beta/files?key="@ + api_key
}

/// Where the status of the remote file `name` is read.
pub open spec fn file_status_url_of(base: Seq<char>, name: Seq<char>, api_key: Seq<char>) -> Seq<char> {
    base + "/"@ + name + "?key="@ + api_key
}

/// The URL that starts an upload session.
pub fn upload_start_url(base_url: &str, api_key: &str) -> (r: String)
    ensures
        r@ == upload_start_url_of(base_url@, api_key@),
{
    let host = match strip_suffix(base_url, "/v1beta") {
        Some(h) => h,
        None => match strip_suffix(base_url, "/v1") {
            Some(h) => h,
            None => base_url,
        },
    };
    let mut url = host.to_owned();
    url.append("/upload/v1beta/files?key=");
    url.append(api_key);
    url
}

/// The URL at which the status of the remote file `name` is read.
pub fn file_status_url(base_url: &str, name: &str, api_key: &str) -> (r: String)
    ensures
        r@ == file_status_url_of(base_url@, name@, api_key@),
{
    let mut url = base_url.to_owned();
    url.append("/");
    url.append(name);
    url.append("?key=");
    url.append(api_key);
    url
}

/// The two steps of the upload handshake.
#[derive(Debug, Clone, Copy, PartialEq, Eq, Structural)]
pub enum UploadStep {
    /// Declaring the payload and opening a session.
    Start,
    /// Sending the bytes to the session and finalizing.
    Transfer,
}

/// A field that a success answer must carry.
#[derive(Debug, Clone, Copy, PartialEq, Eq, Structural)]
pub enum ResponseField {
    /// The per-session upload URL of the start answer.
    SessionUrl,
    /// The file object of the transfer answer.
    File,
    /// The file object's `name`.
    Name,
    /// The file object's `uri`.
    Uri,
}

/// Why getting a payload into the cache failed.
#[derive(Debug)]
pub enum CacheError {
    /// A handshake request could not be completed, or its answer not read.
    Transport { step: UploadStep, message: String },
    /// The service answered a handshake step with a non-success status.
    Rejected { step: UploadStep, status: u16, body: String },
    /// A success answer lacked a field that the protocol requires.
    MissingField(ResponseField),
    /// An event arrived that does not belong to the current phase.
    UnexpectedEvent,
}

/// The file object of a transfer answer, as far as the answer had one.
#[derive(Debug)]
pub struct UploadedFile {
    pub name: Option<String>,
    pub uri: Option<String>,
}

/// `e` is the rejection of `step` with this status and body.
pub open spec fn is_rejection(e: CacheError, step: UploadStep, status: u16, body: Seq<char>) -> bool {
    e matches CacheError::Rejected { step: st, status: s, body: b } && st == step && s == status && b@ == body
}

/// The failure that a start answer stands for, where it stands for one.
pub open spec fn start_answer_error(status: u16, session_url: Option<Seq<char>>, body: Seq<char>, e: CacheError) -> bool {
    if !is_success(status) {
        is_rejection(e, UploadStep::Start, status, body)
    } else {
        e == CacheError::MissingField(ResponseField::SessionUrl)
    }
}

/// Reads the answer to the start of an upload session: a success that
/// names the session URL opens the session; a non-success status, or a
/// success without the URL, fails the attempt.
pub fn session_from_start(status: u16, session_url: Option<String>, body: String) -> (r: Result<String, CacheError>)
    ensures
        is_success(status) && session_url is Some <==> r is Ok,
        r matches Ok(u) ==> (session_url matches Some(s) && u@ == s@),
        r matches Err(e) ==> start_answer_error(status, opt_view(session_url), body@, e),
{
    if !(200 <= status && status < 300) {
        return Err(CacheError::Rejected { step: UploadStep::Start, status, body });
    }
    match session_url {
        Some(url) => Ok(url),
        None => Err(CacheError::MissingField(ResponseField::SessionUrl)),
    }
}

/// A transfer answer completes the upload: a success with a file object
/// that has both a name and a URI.
pub open spec fn upload_answer_ok(status: u16, file: Option<UploadedFile>) -> bool {
    &&& is_success(status)
    &&& file matches Some(f) && f.name is Some && f.uri is Some
}

/// The failure that a transfer answer stands for, where it stands for one.
pub open spec fn upload_answer_error(status: u16, file: Option<UploadedFile>, body: Seq<char>, e: CacheError) -> bool {
    if !is_success(status) {
        is_rejection(e, UploadStep::Transfer, status, body)
    } else {
        match file {
            None => e == CacheError::MissingField(ResponseField::File),
            Some(f) => if f.name is None {
                e == CacheError::MissingField(ResponseField::Name)
            } else {
                e == CacheError::MissingField(ResponseField::Uri)
            },
        }
    }
}

/// Reads the answer to the byte transfer: the remote name and URI of the
/// uploaded file, or why the attempt failed.
pub fn file_from_upload(status: u16, file: Option<UploadedFile>, body: String) -> (r: Result<(String, String), CacheError>)
    ensures
        upload_answer_ok(status, file) <==> r is Ok,
        r matches Ok(p) ==> (file matches Some(f) && opt_view(f.name) == Some(p.0@) && opt_view(f.uri) == Some(p.1@)),
        r matches Err(e) ==> upload_answer_error(status, file, body@, e),
{
    if !(200 <= status && status < 300) {
        return Err(CacheError::Rejected { step: UploadStep::Transfer, status, body });
    }
    match file {
        None => Err(CacheError::MissingField(ResponseField::File)),
        Some(f) => match f.name {
            None => Err(CacheError::MissingField(ResponseField::Name)),
            Some(name) => match f.uri {
                None => Err(CacheError::MissingField(ResponseField::Uri)),
                Some(uri) => Ok((name, uri)),
            },
        },
    }
}

} // verus!
