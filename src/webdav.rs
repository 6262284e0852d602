//! The WebDAV requests this application makes, and what their outcomes mean.
//!
//! Requests are described here as values; the caller sends them with an HTTP
//! agent whose total timeout is `REQUEST_TIMEOUT_SECS`, and hands back the
//! outcome.
use vstd::prelude::*;
use vstd::utf8::encode_utf8;
use crate::cipher::base64_text;
use crate::config::Credentials;
use crate::error::SyncError;

verus! {

/// Total time allowed for one request, in seconds.
pub const REQUEST_TIMEOUT_SECS: u64 = 15;

/// The HTTP methods used against the server.
#[derive(Clone, Copy, Debug, PartialEq, Eq, Structural)]
pub enum Method {
    Propfind,
    Mkcol,
    Put,
    Get,
}

impl Method {
    /// The method's name on the wire.
    pub fn name(&self) -> (r: &'static str)
        ensures
            r@ == method_name(*self),
    {
        match self {
            Method::Propfind => "PROPFIND",
            Method::Mkcol => "MKCOL",
            Method::Put => "PUT",
            Method::Get => "GET",
        }
    }
}

pub open spec fn method_name(m: Method) -> Seq<char> {
    match m {
        Method::Propfind => "PROPFIND"@,
        Method::Mkcol => "MKCOL"@,
        Method::Put => "PUT"@,
        Method::Get => "GET"@,
    }
}

/// One request to send. Headers that are `None` are not sent.
#[derive(Clone, Debug, PartialEq, Eq)]
pub struct DavRequest {
    pub method: Method,
    pub url: String,
    /// The `Authorization` header.
    pub authorization: String,
    /// The `Depth` header.
    pub depth: Option<String>,
    /// The `Content-Type` header.
    pub content_type: Option<String>,
    pub body: Option<String>,
}

/// What became of a request.
#[derive(Clone, Debug, PartialEq, Eq)]
pub enum HttpOutcome {
    /// A success status, with the response body (empty where it is not read).
    Success(String),
    /// An error status (400 and above).
    Status(u16),
    /// No response: name resolution, connection or timeout failed, or the
    /// body could not be read. Holds a description.
    Transport(String),
}

/// `e` is a network error with this status, or without one for `None`.
pub open spec fn is_network_error(e: SyncError, status: Option<u16>) -> bool {
    e matches SyncError::Network { status: s, .. } && s == status
}

/// `r` is the connection test of `server` with these credentials.
pub open spec fn is_probe(r: DavRequest, server: Seq<char>, username: Seq<char>, password: Seq<char>) -> bool {
    &&& r.method == Method::Propfind
    &&& r.url@ == base_url_of(server)
    &&& r.authorization@ == basic_auth_of(username, password)
    &&& r.depth is Some && r.depth->0@ == "0"@
    &&& r.content_type is None
    &&& r.body is None
}

/// `r` creates the data folder on `server`.
pub open spec fn is_folder_creation(
    r: DavRequest,
    server: Seq<char>,
    username: Seq<char>,
    password: Seq<char>,
) -> bool {
    &&& r.method == Method::Mkcol
    &&& r.url@ == folder_url_of(server)
    &&& r.authorization@ == basic_auth_of(username, password)
    &&& r.depth is None
    &&& r.content_type is None
    &&& r.body is None
}

/// `r` stores `document` as the synchronised document on `server`.
pub open spec fn is_upload(
    r: DavRequest,
    server: Seq<char>,
    username: Seq<char>,
    password: Seq<char>,
    document: String,
) -> bool {
    &&& r.method == Method::Put
    &&& r.url@ == object_url_of(server)
    &&& r.authorization@ == basic_auth_of(username, password)
    &&& r.depth is None
    &&& r.content_type is Some && r.content_type->0@ == "application/json; charset=utf-8"@
    &&& r.body == Some(document)
}

/// `r` fetches the synchronised document from `server`.
pub open spec fn is_download(r: DavRequest, server: Seq<char>, username: Seq<char>, password: Seq<char>) -> bool {
    &&& r.method == Method::Get
    &&& r.url@ == object_url_of(server)
    &&& r.authorization@ == basic_auth_of(username, password)
    &&& r.depth is None
    &&& r.content_type is None
    &&& r.body is None
}

/// The document that a download's outcome yields, if it yields one.
pub open spec fn downloaded_text(outcome: HttpOutcome) -> Option<Seq<char>> {
    match outcome {
        HttpOutcome::Success(body) => Some(body@),
        HttpOutcome::Status(code) => if code == 404 {
            Some(empty_document_text())
        } else {
            None
        },
        HttpOutcome::Transport(_) => None,
    }
}

/// The name of the folder that holds the synchronised data on the server.
pub open spec fn folder_name() -> Seq<char> {
    "T-Countdown/"@
}

/// The name of the synchronised document inside that folder.
pub open spec fn object_name() -> Seq<char> {
    "data.json"@
}

/// The server address with a trailing `/`, added only where it is missing.
pub open spec fn base_url_of(server: Seq<char>) -> Seq<char> {
    if server.len() > 0 && server.last() == '/' {
        server
    } else {
        server.push('/')
    }
}

pub open spec fn folder_url_of(server: Seq<char>) -> Seq<char> {
    base_url_of(server) + folder_name()
}

pub open spec fn object_url_of(server: Seq<char>) -> Seq<char> {
    folder_url_of(server) + object_name()
}

/// The HTTP Basic authorization value for a user name and password.
pub open spec fn basic_auth_of(username: Seq<char>, password: Seq<char>) -> Seq<char> {
    "Basic "@ + base64_text(encode_utf8(username + ":"@ + password))
}

/// The document that stands for "nothing stored yet".
pub open spec fn empty_document_text() -> Seq<char> {
    "[]"@
}

fn ends_with_slash(s: &str) -> (r: bool)
    ensures
        r == (s@.len() > 0 && s@.last() == '/'),
{
    let n = s.unicode_len();
    n > 0 && s.get_char(n - 1) == '/'
}

fn concat(a: &str, b: &str) -> (r: String)
    ensures
        r@ == a@ + b@,
{
    let mut r = a.to_owned();
    r.append(b);
    r
}

/// The document that stands for "nothing stored yet": an empty JSON array.
pub fn empty_document() -> (r: String)
    ensures
        r@ == empty_document_text(),
{
    "[]".to_owned()
}

/// The server address, ending in exactly the `/` it had or one more.
pub fn base_url(server: &str) -> (r: String)
    ensures
        r@ == base_url_of(server@),
{
    if ends_with_slash(server) {
        server.to_owned()
    } else {
        proof {
            reveal_strlit("/");
        }
        let r = concat(server, "/");
        assert(r@ =~= server@.push('/'));
        r
    }
}

/// The URL of the folder that holds the synchronised document.
pub fn folder_url(server: &str) -> (r: String)
    ensures
        r@ == folder_url_of(server@),
{
    let base = base_url(server);
    concat(base.as_str(), "T-Countdown/")
}

/// The URL of the synchronised document.
pub fn object_url(server: &str) -> (r: String)
    ensures
        r@ == object_url_of(server@),
{
    let folder = folder_url(server);
    concat(folder.as_str(), "data.json")
}

/// The `Authorization` value for HTTP Basic authentication.
pub fn auth_header(username: &str, password: &str) -> (r: String)
    ensures
        r@ == basic_auth_of(username@, password@),
{
    let user_colon = concat(username, ":");
    let creds = concat(user_colon.as_str(), password);
    let encoded = crate::cipher::base64_of_bytes(creds.as_str().as_bytes());
    concat("Basic ", encoded.as_str())
}

/// The connection test: `PROPFIND` with `Depth: 0` on the server address.
pub fn probe_request(server: &str, username: &str, password: &str) -> (r: DavRequest)
    ensures
        is_probe(r, server@, username@, password@),
{
    DavRequest {
        method: Method::Propfind,
        url: base_url(server),
        authorization: auth_header(username, password),
        depth: Some("0".to_owned()),
        content_type: None,
        body: None,
    }
}

/// Creation of the data folder: `MKCOL` on the folder's URL.
pub fn folder_request(creds: &Credentials) -> (r: DavRequest)
    ensures
        is_folder_creation(r, creds.server@, creds.username@, creds.password@),
{
    DavRequest {
        method: Method::Mkcol,
        url: folder_url(creds.server.as_str()),
        authorization: auth_header(creds.username.as_str(), creds.password.as_str()),
        depth: None,
        content_type: None,
        body: None,
    }
}

/// Upload of the whole document: `PUT` of JSON text on the document's URL.
pub fn put_request(creds: &Credentials, document: String) -> (r: DavRequest)
    ensures
        is_upload(r, creds.server@, creds.username@, creds.password@, document),
{
    DavRequest {
        method: Method::Put,
        url: object_url(creds.server.as_str()),
        authorization: auth_header(creds.username.as_str(), creds.password.as_str()),
        depth: None,
        content_type: Some("application/json; charset=utf-8".to_owned()),
        body: Some(document),
    }
}

/// Download of the document: `GET` on the document's URL.
pub fn get_request(creds: &Credentials) -> (r: DavRequest)
    ensures
        is_download(r, creds.server@, creds.username@, creds.password@),
{
    DavRequest {
        method: Method::Get,
        url: object_url(creds.server.as_str()),
        authorization: auth_header(creds.username.as_str(), creds.password.as_str()),
        depth: None,
        content_type: None,
        body: None,
    }
}

/// The meaning of a connection test's outcome: 401 and 403 reject the
/// credentials, any other error status or a transport failure is a network
/// error.
pub fn probe_result(outcome: HttpOutcome) -> (r: Result<(), SyncError>)
    ensures
        outcome is Success ==> r is Ok,
        outcome matches HttpOutcome::Status(code) ==> r is Err && if code == 401 || code == 403 {
            r->Err_0 == SyncError::Auth
        } else {
            is_network_error(r->Err_0, Some(code))
        },
        outcome matches HttpOutcome::Transport(d) ==> r == Err::<(), SyncError>(
            SyncError::Network { status: None, detail: d },
        ),
{
    match outcome {
        HttpOutcome::Success(_) => Ok(()),
        HttpOutcome::Status(code) => {
            if code == 401 || code == 403 {
                Err(SyncError::Auth)
            } else {
                Err(SyncError::Network { status: Some(code), detail: String::new() })
            }
        },
        HttpOutcome::Transport(detail) => Err(SyncError::Network { status: None, detail }),
    }
}

/// The meaning of an upload's outcome: only a success status succeeds.
pub fn upload_result(outcome: HttpOutcome) -> (r: Result<(), SyncError>)
    ensures
        outcome is Success ==> r is Ok,
        outcome matches HttpOutcome::Status(code) ==> r is Err && is_network_error(r->Err_0, Some(code)),
        outcome matches HttpOutcome::Transport(d) ==> r == Err::<(), SyncError>(
            SyncError::Network { status: None, detail: d },
        ),
{
    match outcome {
        HttpOutcome::Success(_) => Ok(()),
        HttpOutcome::Status(code) => Err(SyncError::Network { status: Some(code), detail: String::new() }),
        HttpOutcome::Transport(detail) => Err(SyncError::Network { status: None, detail }),
    }
}

/// The meaning of a download's outcome: the body on success; the empty
/// document where the server has none yet (404); a network error otherwise.
pub fn download_result(outcome: HttpOutcome) -> (r: Result<String, SyncError>)
    ensures
        r is Ok <==> downloaded_text(outcome) is Some,
        r is Ok ==> r->Ok_0@ == downloaded_text(outcome)->0,
        outcome matches HttpOutcome::Success(body) ==> r == Ok::<String, SyncError>(body),
        outcome == HttpOutcome::Status(404) ==> r is Ok && r->Ok_0@ == "[]"@,
        outcome matches HttpOutcome::Status(code) ==> (code != 404 ==> r is Err && is_network_error(
            r->Err_0,
            Some(code),
        )),
        outcome matches HttpOutcome::Transport(d) ==> r == Err::<String, SyncError>(
            SyncError::Network { status: None, detail: d },
        ),
{
    match outcome {
        HttpOutcome::Success(body) => Ok(body),
        HttpOutcome::Status(code) => {
            if code == 404 {
                Ok(empty_document())
            } else {
                Err(SyncError::Network { status: Some(code), detail: String::new() })
            }
        },
        HttpOutcome::Transport(detail) => Err(SyncError::Network { status: None, detail }),
    }
}

} // verus!
