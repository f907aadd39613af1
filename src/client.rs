//! The HTTP gateway: a client with fixed authentication headers, dry-run
//! interception of writes, and the reading of answers into JSON or errors.
//! Sending and waiting happen outside this module; what they depend on is
//! decided here and in `retry`.

use vstd::prelude::*;
use vstd::string::*;
use vstd::utf8::encode_utf8;
use crate::error::{api_error, api_error_of, api_error_text, default_code, default_message, NotionError};
use crate::mime::{mime_from_filename, mime_of_filename};
use crate::text::{decimal, decimal_of};

verus! {

/// The API's base URL.
pub const NOTION_API_BASE: &'static str = "https://api.notion.com";

/// The API version sent with every request.
pub const NOTION_VERSION: &'static str = "2025-09-03";

/// The header that carries the API version.
pub const VERSION_HEADER: &'static str = "notion-version";

/// The content type of request bodies.
pub const JSON_CONTENT_TYPE: &'static str = "application/json";

/// reqwest's HTTP client, carried by the gateway and used where requests are sent.
#[verifier::external_type_specification]
#[verifier::external_body]
pub struct ExClient(reqwest::Client);

/// The error of building a client.
#[verifier::external_type_specification]
#[verifier::external_body]
pub struct ExReqwestError(reqwest::Error);

/// A parsed JSON document.
#[verifier::external_type_specification]
#[verifier::external_body]
pub struct ExValue(serde_json::Value);

/// The error for bytes or text that are not JSON.
#[verifier::external_type_specification]
#[verifier::external_body]
pub struct ExJsonError(serde_json::Error);

/// A byte that may stand in an HTTP header value: visible ASCII, a space, a tab,
/// or any byte from 0x80 up.
pub open spec fn header_byte_ok(b: u8) -> bool {
    (b >= 32 && b != 127) || b == 9
}

/// Text whose UTF-8 encoding is a valid header value.
pub open spec fn header_text_ok(s: Seq<char>) -> bool {
    forall|i: int| 0 <= i < encode_utf8(s).len() ==> header_byte_ok(#[trigger] encode_utf8(s)[i])
}

/// Whether every byte of `s`'s UTF-8 encoding may stand in a header value.
pub fn header_value_ok(s: &str) -> (r: bool)
    ensures
        r == header_text_ok(s@),
{
    let b = s.as_bytes();
    let mut i: usize = 0;
    while i < b.len()
        invariant
            b@ == encode_utf8(s@),
            i <= b@.len(),
            forall|j: int| 0 <= j < i ==> header_byte_ok(#[trigger] b@[j]),
        decreases b@.len() - i,
    {
        let c = b[i];
        if !((c >= 32 && c != 127) || c == 9) {
            return false;
        }
        i = i + 1;
    }
    true
}

/// The header pairs, as text.
pub open spec fn header_pairs(h: Seq<(String, String)>) -> Seq<(Seq<char>, Seq<char>)> {
    Seq::new(h.len(), |i: int| (h[i].0@, h[i].1@))
}

/// The headers sent with every request: the bearer token, the API version and
/// the content type of bodies.
pub open spec fn default_headers_of(token: Seq<char>) -> Seq<(Seq<char>, Seq<char>)> {
    seq![
        ("authorization"@, bearer_of(token)),
        (VERSION_HEADER@, NOTION_VERSION@),
        ("content-type"@, JSON_CONTENT_TYPE@),
    ]
}

/// Makes the headers that a client for `token` sends with every request.
pub fn default_headers(token: &str) -> (r: Vec<(String, String)>)
    ensures
        header_pairs(r@) == default_headers_of(token@),
{
    let mut h: Vec<(String, String)> = Vec::new();
    h.push((String::from_str("authorization"), String::from_str("Bearer ").concat(token)));
    h.push((String::from_str(VERSION_HEADER), String::from_str(NOTION_VERSION)));
    h.push((String::from_str("content-type"), String::from_str(JSON_CONTENT_TYPE)));
    assert(header_pairs(h@) =~= default_headers_of(token@));
    h
}

/// Relies on reqwest's `HeaderName::from_bytes`, `HeaderValue::from_str`,
/// `HeaderMap::try_insert`, `Client::builder`, `ClientBuilder::default_headers` and
/// `ClientBuilder::build`: a client that sends each given header with every
/// request. A name or value that reqwest refuses, a full header map, or a failed
/// build (TLS set-up, resolver configuration) gives `None`; none of these panics.
#[verifier::external_body]
fn build_client(headers: &Vec<(String, String)>) -> (r: Option<reqwest::Client>) {
    let mut map = reqwest::header::HeaderMap::new();
    for (name, value) in headers.iter() {
        let name = reqwest::header::HeaderName::from_bytes(name.as_bytes()).ok()?;
        let value = reqwest::header::HeaderValue::from_str(value).ok()?;
        map.try_insert(name, value).ok()?;
    }
    reqwest::Client::builder().default_headers(map).build().ok()
}

/// What serde_json's `from_slice` accepts as a JSON document.
pub uninterp spec fn json_parses(body: Seq<u8>) -> bool;

/// Relies on serde_json's `from_slice` into a `Value`: it succeeds exactly on the
/// bytes of a JSON document.
#[verifier::external_body]
pub(crate) fn parse_json(body: &[u8]) -> (r: Result<serde_json::Value, serde_json::Error>)
    ensures
        r is Ok <==> json_parses(body@),
{
    serde_json::from_slice::<serde_json::Value>(body)
}

/// The string that the JSON document `body` holds under `key`, when it is an
/// object with a string member of that name, as serde_json reads it.
pub uninterp spec fn json_str_member(body: Seq<u8>, key: Seq<char>) -> Option<Seq<char>>;

/// Relies on serde_json's `from_slice` into a `Map` and `Map::get`: the string
/// member `key` of the JSON object in `body`; none when the body is no object
/// or the member is absent or not a string.
#[verifier::external_body]
fn str_member(body: &[u8], key: &str) -> (r: Option<String>)
    ensures
        match r {
            Some(s) => json_str_member(body@, key@) == Some(s@),
            None => json_str_member(body@, key@) is None,
        },
        !json_parses(body@) ==> r is None,
{
    match serde_json::from_slice::<serde_json::Map<String, serde_json::Value>>(body) {
        Ok(m) => match m.get(key) {
            Some(serde_json::Value::String(s)) => Some(s.clone()),
            _ => None,
        },
        Err(_) => None,
    }
}

/// A 2xx status.
pub open spec fn is_success(status: u16) -> bool {
    200 <= status <= 299
}

/// The way an answer is taken, once no retry follows it.
pub enum Answer {
    /// A 2xx answer with a JSON body: the body is the result.
    Success,
    /// The body is not JSON.
    Unparsable,
    /// Any other answer: an API error with this status, code and message.
    Failure { status: u16, code: Seq<char>, message: Seq<char> },
}

/// How the answer with `status` and `body` is taken.
pub open spec fn answer_of(status: u16, body: Seq<u8>) -> Answer {
    if !json_parses(body) {
        Answer::Unparsable
    } else if is_success(status) {
        Answer::Success
    } else {
        let e = api_error_of(status, json_str_member(body, "code"@), json_str_member(body, "message"@));
        Answer::Failure { status: e.0, code: e.1, message: e.2 }
    }
}

/// The outcome that `handle_response_with_status` has for an answer.
pub open spec fn response_matches(r: Result<serde_json::Value, NotionError>, status: u16, body: Seq<u8>) -> bool {
    match answer_of(status, body) {
        Answer::Success => r is Ok,
        Answer::Unparsable => r matches Err(NotionError::ResponseParse),
        Answer::Failure { status: s, code: c, message: m } => r matches Err(
            NotionError::Api { status: es, code: ec, message: em },
        ) && es == s && ec@ == c && em@ == m,
    }
}

/// Turns a final answer into the parsed JSON body, or into the error it reports:
/// a body that is not JSON fails to parse whatever the status; a non-2xx status
/// gives an API error with the body's `code` and `message`.
pub fn handle_response_with_status(status: u16, body: &[u8]) -> (r: Result<serde_json::Value, NotionError>)
    ensures
        response_matches(r, status, body@),
{
    match parse_json(body) {
        Err(_) => Err(NotionError::ResponseParse),
        Ok(v) => {
            if 200 <= status && status <= 299 {
                Ok(v)
            } else {
                let code = str_member(body, "code");
                let message = str_member(body, "message");
                Err(api_error(status, code, message))
            }
        },
    }
}

/// Whether `needle` occurs in `hay`.
pub open spec fn contains(hay: Seq<char>, needle: Seq<char>) -> bool {
    exists|i: int| 0 <= i && i + needle.len() <= hay.len() && #[trigger] hay.subrange(i, i + needle.len()) == needle
}

/// The text of the error for a final answer that is not a success.
pub open spec fn failure_text(status: u16, body: Seq<u8>) -> Seq<char> {
    match answer_of(status, body) {
        Answer::Failure { status: s, code: c, message: m } => api_error_text(s, c, m),
        _ => Seq::empty(),
    }
}

/// The text of an API error holds its code and its message verbatim.
pub proof fn lemma_error_text_holds_fields(status: u16, code: Seq<char>, message: Seq<char>)
    ensures
        contains(api_error_text(status, code, message), code),
        contains(api_error_text(status, code, message), message),
{
    let head = "Notion API error ("@ + crate::error::status_text_of(status) + "): ["@;
    let t = api_error_text(status, code, message);
    assert(t =~= head + code + "] "@ + message);
    let i = head.len() as int;
    assert(t.subrange(i, i + code.len()) =~= code);
    let j = (head + code + "] "@).len() as int;
    assert(t.subrange(j, j + message.len()) =~= message);
}

/// A final answer outside 2xx whose body is JSON gives an API error with the
/// answer's status, and its text carries the body's `code` and `message`
/// verbatim when they are present, "unknown" and "Unknown error" when not.
pub proof fn law_error_names_code_and_message(status: u16, body: Seq<u8>)
    requires
        json_parses(body),
        !is_success(status),
    ensures
        answer_of(status, body) is Failure,
        answer_of(status, body)->status == status,
        json_str_member(body, "code"@) matches Some(c) ==> answer_of(status, body)->code == c,
        json_str_member(body, "message"@) matches Some(m) ==> answer_of(status, body)->message == m,
        json_str_member(body, "code"@) is None ==> answer_of(status, body)->code == default_code(),
        json_str_member(body, "message"@) is None ==> answer_of(status, body)->message == default_message(),
        contains(failure_text(status, body), answer_of(status, body)->code),
        contains(failure_text(status, body), answer_of(status, body)->message),
{
    let a = answer_of(status, body);
    lemma_error_text_holds_fields(status, a->code, a->message);
}

/// The HTTP verbs of the API.
#[derive(Debug, Clone, Copy, PartialEq, Eq, Structural)]
pub enum Method {
    Get,
    Post,
    Patch,
    Delete,
}

impl Method {
    pub open spec fn name(self) -> Seq<char> {
        match self {
            Method::Get => "GET"@,
            Method::Post => "POST"@,
            Method::Patch => "PATCH"@,
            Method::Delete => "DELETE"@,
        }
    }

    /// The verb as it stands in a request line.
    pub fn as_str(&self) -> (r: &'static str)
        ensures
            r@ == self.name(),
    {
        match self {
            Method::Get => "GET",
            Method::Post => "POST",
            Method::Patch => "PATCH",
            Method::Delete => "DELETE",
        }
    }
}

/// The file that a dry-run multipart upload would have sent.
#[derive(Debug)]
pub struct FilePreview {
    /// The file's path as given.
    pub file: String,
    /// Its size in bytes.
    pub file_size: usize,
    /// The part number that would have been sent, if any.
    pub part_number: Option<u32>,
}

/// What a write in dry-run mode reports in place of sending.
#[derive(Debug)]
pub struct DryRun {
    pub method: Method,
    /// The path as given.
    pub path: String,
    /// The full URL that would have been used.
    pub url: String,
    pub file: Option<FilePreview>,
}

/// What to do for a JSON request.
#[derive(Debug)]
pub enum Plan {
    /// Send nothing; report the request.
    Preview(DryRun),
    /// Send the request to this URL.
    Send { url: String },
}

/// A multipart upload ready to be sent.
#[derive(Debug)]
pub struct MultipartRequest {
    pub url: String,
    /// The name of the `file` part.
    pub file_name: String,
    /// The MIME type of the `file` part.
    pub mime: String,
    /// The `part_number` text field, when there is one.
    pub part_number: Option<String>,
}

/// What to do for a multipart upload.
#[derive(Debug)]
pub enum MultipartPlan {
    Preview(DryRun),
    Send(MultipartRequest),
}

/// The text of the `Authorization` header for a token.
pub open spec fn bearer_of(token: Seq<char>) -> Seq<char> {
    "Bearer "@ + token
}

/// The name a multipart upload gives its file: the path's file name, or `file`.
pub open spec fn upload_name_of(file_name: Option<Seq<char>>) -> Seq<char> {
    match file_name {
        Some(n) => n,
        None => "file"@,
    }
}

/// An authenticated client for one base URL, with a dry-run switch.
pub struct NotionClient {
    /// The HTTP client that sends this gateway's requests.
    pub http: reqwest::Client,
    pub base_url: String,
    pub dry_run: bool,
    /// The headers that `http` sends with every request.
    pub headers: Vec<(String, String)>,
}

impl NotionClient {
    /// A client for the public API.
    pub fn new(token: &str) -> (r: Result<NotionClient, NotionError>)
        ensures
            !header_text_ok(bearer_of(token@)) ==> (r matches Err(NotionError::InvalidToken)),
            header_text_ok(bearer_of(token@)) ==> (r is Ok || r matches Err(NotionError::ClientBuild)),
            r matches Ok(c) ==> c.base_url@ == NOTION_API_BASE@ && !c.dry_run && header_pairs(c.headers@)
                == default_headers_of(token@),
    {
        NotionClient::with_base_url(token, NOTION_API_BASE)
    }

    /// A client for `base_url` that sends `default_headers(token)` with every
    /// request. A token that cannot stand in a header is refused before any
    /// client is built.
    pub fn with_base_url(token: &str, base_url: &str) -> (r: Result<NotionClient, NotionError>)
        ensures
            !header_text_ok(bearer_of(token@)) ==> (r matches Err(NotionError::InvalidToken)),
            header_text_ok(bearer_of(token@)) ==> (r is Ok || r matches Err(NotionError::ClientBuild)),
            r matches Ok(c) ==> c.base_url@ == base_url@ && !c.dry_run && header_pairs(c.headers@)
                == default_headers_of(token@),
    {
        let bearer = String::from_str("Bearer ").concat(token);
        if !header_value_ok(bearer.as_str()) {
            return Err(NotionError::InvalidToken);
        }
        let headers = default_headers(token);
        match build_client(&headers) {
            Some(http) => Ok(NotionClient { http, base_url: String::from_str(base_url), dry_run: false, headers }),
            None => Err(NotionError::ClientBuild),
        }
    }

    /// Turns dry-run mode on or off.
    pub fn set_dry_run(&mut self, dry_run: bool)
        ensures
            final(self).dry_run == dry_run,
            final(self).base_url@ == old(self).base_url@,
            final(self).http == old(self).http,
            final(self).headers@ == old(self).headers@,
    {
        self.dry_run = dry_run;
    }

    /// The URL of `path` under this client's base URL.
    pub fn url(&self, path: &str) -> (r: String)
        ensures
            r@ == self.base_url@ + path@,
    {
        self.base_url.clone().concat(path)
    }

    /// Whether a request with this verb is held back: in dry-run mode every
    /// verb but `GET` is.
    pub open spec fn intercepts(&self, method: Method) -> bool {
        self.dry_run && method != Method::Get
    }

    /// Decides what a JSON request does: in dry-run mode a write is reported and
    /// not sent; a read is always sent.
    pub fn plan(&self, method: Method, path: &str) -> (r: Plan)
        ensures
            self.intercepts(method) ==> (r matches Plan::Preview(d) && d.method == method
                && d.path@ == path@ && d.url@ == self.base_url@ + path@ && d.file is None),
            !self.intercepts(method) ==> (r matches Plan::Send { url } && url@ == self.base_url@
                + path@),
            method == Method::Get ==> r is Send,
    {
        let url = self.url(path);
        if self.dry_run && method != Method::Get {
            Plan::Preview(DryRun { method, path: String::from_str(path), url, file: None })
        } else {
            Plan::Send { url }
        }
    }

    /// Decides what a multipart upload of a file does. `file_size` is `None` when
    /// the file could not be read: that fails before anything is sent, in dry-run
    /// mode too. In dry-run mode nothing is sent and the file is reported; otherwise
    /// the file part is named after the path's file name (or `file`) and typed by
    /// its extension.
    pub fn plan_multipart(
        &self,
        path: &str,
        file: &str,
        file_name: Option<&str>,
        file_size: Option<usize>,
        part_number: Option<u32>,
    ) -> (r: Result<MultipartPlan, NotionError>)
        ensures
            file_size is None ==> (r matches Err(NotionError::FileRead { path: p }) && p@ == file@),
            (file_size is Some && self.dry_run) ==> (r matches Ok(MultipartPlan::Preview(d))
                && d.method == Method::Post && d.path@ == path@ && d.url@ == self.base_url@ + path@
                && (d.file matches Some(f) && f.file@ == file@ && f.file_size == file_size->0 && f.part_number
                == part_number)),
            (file_size is Some && !self.dry_run) ==> (r matches Ok(MultipartPlan::Send(m))
                && m.url@ == self.base_url@ + path@
                && m.file_name@ == upload_name_of(
                match file_name {
                    Some(n) => Some(n@),
                    None => None,
                },
            ) && m.mime@ == mime_of_filename(m.file_name@) && match part_number {
                Some(n) => (m.part_number matches Some(t) && t@ == decimal_of(n as nat)),
                None => m.part_number is None,
            }),
    {
        let size = match file_size {
            Some(n) => n,
            None => {
                return Err(NotionError::FileRead { path: String::from_str(file) });
            },
        };
        let url = self.url(path);
        if self.dry_run {
            let preview = FilePreview { file: String::from_str(file), file_size: size, part_number };
            return Ok(
                MultipartPlan::Preview(
                    DryRun { method: Method::Post, path: String::from_str(path), url, file: Some(preview) },
                ),
            );
        }
        let name = match file_name {
            Some(n) => String::from_str(n),
            None => String::from_str("file"),
        };
        let mime = mime_from_filename(name.as_str());
        let part = match part_number {
            Some(n) => Some(decimal(n as u64)),
            None => None,
        };
        Ok(MultipartPlan::Send(MultipartRequest { url, file_name: name, mime, part_number: part }))
    }
}

/// In dry-run mode every write is held back and reads still go out.
pub proof fn law_dry_run_holds_writes(c: NotionClient)
    requires
        c.dry_run,
    ensures
        c.intercepts(Method::Post),
        c.intercepts(Method::Patch),
        c.intercepts(Method::Delete),
        !c.intercepts(Method::Get),
{
}

} // verus!
