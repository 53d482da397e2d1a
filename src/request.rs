//! Outcomes of the launcher's HTTP requests, and how they are classified.
use vstd::prelude::*;
use vstd::string::StringExecFns;
use vstd::utf8::encode_utf8;

use crate::failure;

verus! {

/// Message key shown to the user when a launcher request fails on the network.
pub const NETWORK_ERROR: &'static str = "launcher-network-error";

/// Path of the manifest check under the patch server's base URL.
pub const CHECK_PATH: &'static str = "/check";

/// Name of the freshness marker file at the root of the game folder.
pub const ETAG_FILE: &'static str = "patcher.etag";

/// The status of a response to a conditional request whose resource is unchanged.
pub const NOT_MODIFIED: u16 = 304;

/// The patch server's answer to a manifest check: the new freshness marker (ETag)
/// and the manifest text.
#[derive(Clone, Debug)]
pub struct PatcherResponse {
    pub etag: String,
    pub content: String,
}

/// How a request failed.
#[derive(Clone, Debug)]
pub enum Error {
    /// The cancellation signal fired before the response completed.
    Cancellation,
    /// The server answered with a failing status, and this message.
    Server(u16, String),
    /// The request could not be carried out.
    Backend(String),
}

/// The ASCII digit of `d` (`d < 10`) as a character.
pub open spec fn digit_char(d: nat) -> char {
    ((48 + d) as u8) as char
}

/// The decimal numeral of `n`, without leading zeros.
pub open spec fn decimal(n: nat) -> Seq<char>
    decreases n,
{
    if n < 10 {
        seq![digit_char(n)]
    } else {
        decimal(n / 10) + seq![digit_char(n % 10)]
    }
}

/// The text of an error, as a log line shows it.
pub open spec fn error_text(e: Error) -> Seq<char> {
    match e {
        Error::Cancellation => "request cancelled"@,
        Error::Server(status, msg) => "server error "@ + decimal(status as nat) + ": "@ + msg@,
        Error::Backend(msg) => "backend error: "@ + msg@,
    }
}

/// `s` begins with `prefix`.
pub open spec fn starts_with(s: Seq<char>, prefix: Seq<char>) -> bool {
    prefix.len() <= s.len() && s.take(prefix.len() as int) == prefix
}

/// A content type names plain text.
pub open spec fn plain_text(content_type: Option<Seq<char>>) -> bool {
    content_type matches Some(t) && starts_with(t, "text/plain"@)
}

/// A status at which a request has failed.
pub open spec fn status_failed(status: u16) -> bool {
    status >= 400
}

/// What to do with a response once its status and content type are known.
#[derive(Clone, Debug)]
pub enum Reply {
    /// The status is a success: hand the body to the caller.
    Proceed,
    /// The status failed and the body is plain text: read it as the error message.
    ReadErrorBody,
    /// The status failed with a body that is not to be shown.
    Fail(Error),
}

impl Error {
    /// The message for the user: empty for a cancellation, which is silent.
    pub fn into_frontend(self) -> (r: String)
        ensures
            r@ == match self {
                Error::Cancellation => Seq::<char>::empty(),
                Error::Server(_, msg) => msg@,
                Error::Backend(msg) => msg@,
            },
    {
        match self {
            Error::Cancellation => String::new(),
            Error::Server(_, msg) => msg,
            Error::Backend(msg) => msg,
        }
    }

    /// The text of the error, as a log line shows it.
    pub fn describe(&self) -> (r: String)
        ensures
            r@ == error_text(*self),
    {
        match self {
            Error::Cancellation => String::from_str("request cancelled"),
            Error::Server(status, msg) => {
                let mut r = String::from_str("server error ");
                let digits = decimal_string(*status);
                r.append(digits.as_str());
                r.append(": ");
                r.append(msg.as_str());
                r
            },
            Error::Backend(msg) => {
                let mut r = String::from_str("backend error: ");
                r.append(msg.as_str());
                r
            },
        }
    }
}

fn digit_str(d: u16) -> (r: &'static str)
    requires
        d < 10,
    ensures
        r@ == seq![digit_char(d as nat)],
{
    proof {
        reveal_strlit("0");
        reveal_strlit("1");
        reveal_strlit("2");
        reveal_strlit("3");
        reveal_strlit("4");
        reveal_strlit("5");
        reveal_strlit("6");
        reveal_strlit("7");
        reveal_strlit("8");
        reveal_strlit("9");
    }
    let r = match d {
        0 => "0",
        1 => "1",
        2 => "2",
        3 => "3",
        4 => "4",
        5 => "5",
        6 => "6",
        7 => "7",
        8 => "8",
        _ => "9",
    };
    assert(r@ =~= seq![digit_char(d as nat)]);
    r
}

/// The decimal numeral of `n`.
pub fn decimal_string(n: u16) -> (r: String)
    ensures
        r@ == decimal(n as nat),
    decreases n,
{
    if n < 10 {
        String::from_str(digit_str(n))
    } else {
        let mut r = decimal_string(n / 10);
        r.append(digit_str(n % 10));
        r
    }
}

/// Whether `s` begins with `prefix`.
pub fn str_starts_with(s: &str, prefix: &str) -> (r: bool)
    ensures
        r == starts_with(s@, prefix@),
{
    let n = prefix.unicode_len();
    if s.unicode_len() < n {
        return false;
    }
    let mut i: usize = 0;
    while i < n
        invariant
            n == prefix@.len(),
            n <= s@.len(),
            i <= n,
            forall|j: int| 0 <= j < i ==> s@[j] == prefix@[j],
        decreases n - i,
    {
        if s.get_char(i) != prefix.get_char(i) {
            return false;
        }
        i = i + 1;
    }
    assert(s@.take(n as int) =~= prefix@);
    true
}

/// Whether a response's content type names plain text; `None` when the header is
/// absent or not visible ASCII.
pub fn is_plain_text(content_type: Option<&str>) -> (r: bool)
    ensures
        r == plain_text(
            match content_type {
                Some(t) => Some(t@),
                None => None,
            },
        ),
{
    match content_type {
        Some(t) => str_starts_with(t, "text/plain"),
        None => false,
    }
}

/// The error for a request whose transport failed.
pub fn transport_error() -> (r: Error)
    ensures
        r matches Error::Backend(msg) && msg@ == NETWORK_ERROR@,
{
    Error::Backend(String::from_str(NETWORK_ERROR))
}

/// Decides what to do with a response from its status and content type: a status of
/// 400 or more fails the request, with the body as message only when it is plain text.
pub fn examine_status(status: u16, content_type: Option<&str>) -> (r: Reply)
    ensures
        !status_failed(status) ==> r is Proceed,
        status_failed(status) && plain_text(
            match content_type {
                Some(t) => Some(t@),
                None => None,
            },
        ) ==> r is ReadErrorBody,
        status_failed(status) && !plain_text(
            match content_type {
                Some(t) => Some(t@),
                None => None,
            },
        ) ==> (r matches Reply::Fail(Error::Server(st, msg)) && st == status && msg@
            == NETWORK_ERROR@),
{
    if status < 400 {
        Reply::Proceed
    } else if is_plain_text(content_type) {
        Reply::ReadErrorBody
    } else {
        Reply::Fail(Error::Server(status, String::from_str(NETWORK_ERROR)))
    }
}

/// The error of a failed status whose plain-text body was read: the body is the
/// message, or the generic key when the body could not be read.
pub fn server_error(status: u16, body: Option<String>) -> (r: Error)
    ensures
        r matches Error::Server(st, msg) && st == status && msg@ == match body {
            Some(b) => b@,
            None => NETWORK_ERROR@,
        },
{
    match body {
        Some(b) => Error::Server(status, b),
        None => Error::Server(status, String::from_str(NETWORK_ERROR)),
    }
}

/// The outcome of a manifest check from its status and `ETag` header: `Ok(None)` for
/// 304 (nothing to apply, keep the stored marker), `Ok(Some(etag))` when the body is
/// to be read, and an error when the header is missing.
pub fn check_head(status: u16, etag: Option<String>) -> (r: Result<Option<String>, Error>)
    ensures
        status == NOT_MODIFIED ==> r matches Ok(None),
        status != NOT_MODIFIED && etag is Some ==> (r matches Ok(Some(e)) && e@ == etag->0@),
        status != NOT_MODIFIED && etag is None ==> (r matches Err(Error::Server(st, msg)) && st
            == status && msg@ == failure::NETWORK_ERROR@),
{
    if status == NOT_MODIFIED {
        Ok(None)
    } else {
        match etag {
            Some(e) => Ok(Some(e)),
            None => Err(Error::Server(status, String::from_str(failure::NETWORK_ERROR))),
        }
    }
}

/// The manifest check's response once its body was read, or the error when reading
/// the body failed (`None`).
pub fn check_body(status: u16, etag: String, body: Option<String>) -> (r: Result<
    PatcherResponse,
    Error,
>)
    ensures
        body matches Some(b) ==> (r matches Ok(p) && p.etag@ == etag@ && p.content@ == b@),
        body is None ==> (r matches Err(Error::Server(st, msg)) && st == status && msg@
            == failure::NETWORK_ERROR@),
{
    match body {
        Some(content) => Ok(PatcherResponse { etag, content }),
        None => Err(Error::Server(status, String::from_str(failure::NETWORK_ERROR))),
    }
}

/// The URL of the manifest check under the patch server's base URL.
pub fn check_url(base: &str) -> (r: String)
    ensures
        r@ == base@ + CHECK_PATH@,
{
    let mut r = String::from_str(base);
    r.append(CHECK_PATH);
    r
}

/// The URL of a changed file, `{base}/{path}`, as bytes.
pub fn file_url(base: &str, path: &[u8]) -> (r: Vec<u8>)
    ensures
        r@ == encode_utf8(base@) + seq![47u8] + path@,
{
    let b = base.as_bytes();
    let mut r: Vec<u8> = Vec::new();
    let mut i: usize = 0;
    while i < b.len()
        invariant
            i <= b@.len(),
            b@ == encode_utf8(base@),
            r@ == b@.take(i as int),
        decreases b@.len() - i,
    {
        r.push(b[i]);
        assert(b@.take(i + 1) =~= b@.take(i as int).push(b@[i as int]));
        i = i + 1;
    }
    assert(b@.take(b@.len() as int) =~= b@);
    r.push(47u8);
    let ghost head = r@;
    let mut j: usize = 0;
    while j < path.len()
        invariant
            j <= path@.len(),
            r@ == head + path@.take(j as int),
        decreases path@.len() - j,
    {
        r.push(path[j]);
        assert(path@.take(j + 1) =~= path@.take(j as int).push(path@[j as int]));
        j = j + 1;
    }
    assert(path@.take(path@.len() as int) =~= path@);
    r
}

/// The stored freshness marker: the marker file's text, or empty when it could not
/// be read (a missing marker means no freshness information, not a failure).
pub fn stored_etag(read: Option<String>) -> (r: String)
    ensures
        r@ == match read {
            Some(t) => t@,
            None => Seq::<char>::empty(),
        },
{
    match read {
        Some(t) => t,
        None => String::new(),
    }
}

} // verus!
