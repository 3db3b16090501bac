//! Response framing and the per-connection decision: what to send back
//! for the bytes received.
use vstd::prelude::*;
use vstd::string::StrSliceExecFns;
use vstd::string::StringSliceAdditionalSpecFns;
use nom::AsBytes;
use crate::request::{agent_from, parse_request, parses_to, Request};
use crate::route::{route, route_of, Route, RouteView};
use crate::text::{decimal, push_decimal, tokens};

verus! {

broadcast use vstd::string::group_string_axioms;

/// How many bytes of a connection are read and looked at.
pub const CAPACITY: usize = 128;

/// `200 OK` with no headers and no body.
pub open spec fn root_response() -> Seq<u8> {
    "HTTP/1.1 200 OK\r\n\r\n".spec_bytes()
}

/// The bare `404 Not found`: a status line and nothing else.
pub open spec fn not_found_response() -> Seq<u8> {
    "HTTP/1.1 404 Not found\r\n\r\n".spec_bytes()
}

/// The `404` sent when a requested file cannot be read.
pub open spec fn missing_file_response() -> Seq<u8> {
    "HTTP/1.1 404 Not found\r\nContent-Type: application/octet-stream\r\nContent-Length: 0\r\n\r\n".spec_bytes()
}

pub open spec fn text_head() -> Seq<u8> {
    "HTTP/1.1 200 OK\r\nContent-Type: text/plain\r\nContent-Length: ".spec_bytes()
}

pub open spec fn file_head() -> Seq<u8> {
    "HTTP/1.1 200 OK\r\nContent-Type: application/octet-stream\r\nContent-Length: ".spec_bytes()
}

pub open spec fn head_end() -> Seq<u8> {
    "\r\n\r\n".spec_bytes()
}

/// `200 OK` carrying `body` as plain text, with its byte length.
pub open spec fn text_response(body: Seq<u8>) -> Seq<u8> {
    text_head() + decimal(body.len()) + head_end() + body
}

/// `200 OK` carrying `body` as an octet stream, with its byte length.
pub open spec fn file_response(body: Seq<u8>) -> Seq<u8> {
    file_head() + decimal(body.len()) + head_end() + body
}

/// What a connection handler does next.
#[derive(Debug, Clone, PartialEq, Eq)]
pub enum Action {
    /// Write these bytes and close.
    Send(Vec<u8>),
    /// Read the file at this path, relative to the base directory, and send
    /// what [`file_reply`] makes of the outcome.
    ReadFile(Vec<u8>),
    /// Close without writing anything.
    Silent,
}

/// The mathematical value of an [`Action`].
pub enum ActionView {
    Send(Seq<u8>),
    ReadFile(Seq<u8>),
    Silent,
}

impl View for Action {
    type V = ActionView;

    open spec fn view(&self) -> ActionView {
        match self {
            Action::Send(b) => ActionView::Send(b@),
            Action::ReadFile(p) => ActionView::ReadFile(p@),
            Action::Silent => ActionView::Silent,
        }
    }
}

/// The action for a request with this method, path and user agent.
pub open spec fn action_for(method: Seq<u8>, path: Seq<u8>, agent: Seq<u8>) -> ActionView {
    match route_of(method, path) {
        RouteView::Root => ActionView::Send(root_response()),
        RouteView::Echo(s) => ActionView::Send(text_response(s)),
        RouteView::UserAgent => ActionView::Send(text_response(agent)),
        RouteView::Files(p) => ActionView::ReadFile(p),
        RouteView::StoreFile(_) => ActionView::Silent,
        RouteView::NotFound => ActionView::Send(not_found_response()),
    }
}

/// The action for decoded request text: silence when it holds fewer than
/// three tokens, else the action for its method, path and user agent.
pub open spec fn action_for_text(text: Seq<u8>) -> ActionView {
    let t = tokens(text);
    if t.len() < 3 {
        ActionView::Silent
    } else {
        action_for(t[0], t[1], agent_from(t, 0))
    }
}

/// The part of the received bytes that is looked at.
pub open spec fn truncated(received: Seq<u8>) -> Seq<u8> {
    if received.len() <= CAPACITY {
        received
    } else {
        received.take(CAPACITY as int)
    }
}

/// The UTF-8 bytes of the text that `String::from_utf8_lossy` makes of `b`.
pub uninterp spec fn lossy_text(b: Seq<u8>) -> Seq<u8>;

/// Relies on `String::from_utf8_lossy`: decodes `b`, replacing each invalid
/// sequence; the result depends on `b` alone.
#[verifier::external_body]
fn decode_lossy(b: &[u8]) -> (r: Vec<u8>)
    ensures
        r@ == lossy_text(b@),
{
    String::from_utf8_lossy(b).into_owned().into_bytes()
}

/// Relies on nom's `AsBytes::as_bytes` for `[u8]`, which returns the slice
/// itself.
#[verifier::external_body]
fn byte_view(v: &Vec<u8>) -> (r: &[u8])
    ensures
        r@ == v@,
{
    v.as_slice().as_bytes()
}

/// Appends the bytes of `b` to `out`.
fn push_all(out: &mut Vec<u8>, b: &[u8])
    ensures
        final(out)@ == old(out)@ + b@,
{
    let mut i: usize = 0;
    while i < b.len()
        invariant
            i <= b@.len(),
            out@ == old(out)@ + b@.take(i as int),
        decreases b@.len() - i,
    {
        out.push(b[i]);
        assert(b@.take(i + 1) =~= b@.take(i as int).push(b@[i as int]));
        i = i + 1;
    }
    assert(b@.take(i as int) =~= b@);
}

/// `head`, the decimal length of `body`, the blank line, then `body`.
fn framed(head: &str, body: &[u8]) -> (r: Vec<u8>)
    ensures
        r@ == head.spec_bytes() + decimal(body@.len()) + head_end() + body@,
{
    let mut out = head.as_bytes_vec();
    push_decimal(&mut out, body.len());
    let end = "\r\n\r\n".as_bytes_vec();
    push_all(&mut out, end.as_slice());
    push_all(&mut out, body);
    out
}

/// The response to a file read: its contents with a `200`, or the empty
/// `404` when the read failed.
pub fn file_reply(contents: Option<Vec<u8>>) -> (r: Vec<u8>)
    ensures
        contents matches Some(c) ==> r@ == file_response(c@),
        contents is None ==> r@ == missing_file_response(),
{
    match contents {
        Some(c) => framed(
            "HTTP/1.1 200 OK\r\nContent-Type: application/octet-stream\r\nContent-Length: ",
            byte_view(&c),
        ),
        None => "HTTP/1.1 404 Not found\r\nContent-Type: application/octet-stream\r\nContent-Length: 0\r\n\r\n".as_bytes_vec(),
    }
}

/// The action that serves a parsed request.
pub fn respond(req: &Request) -> (r: Action)
    ensures
        r@ == action_for(req.method@, req.path@, req.user_agent@),
{
    match route(req.method.as_slice(), req.path.as_slice()) {
        Route::Root => Action::Send("HTTP/1.1 200 OK\r\n\r\n".as_bytes_vec()),
        Route::Echo(s) => Action::Send(
            framed("HTTP/1.1 200 OK\r\nContent-Type: text/plain\r\nContent-Length: ", s.as_slice()),
        ),
        Route::UserAgent => Action::Send(
            framed(
                "HTTP/1.1 200 OK\r\nContent-Type: text/plain\r\nContent-Length: ",
                req.user_agent.as_slice(),
            ),
        ),
        Route::Files(p) => Action::ReadFile(p),
        Route::StoreFile(_) => Action::Silent,
        Route::NotFound => Action::Send("HTTP/1.1 404 Not found\r\n\r\n".as_bytes_vec()),
    }
}

/// The action for decoded request text.
pub fn respond_to_text(text: &[u8]) -> (r: Action)
    ensures
        r@ == action_for_text(text@),
{
    match parse_request(text) {
        Ok(req) => respond(&req),
        Err(_) => Action::Silent,
    }
}

/// The action for the bytes received on a connection: at most [`CAPACITY`]
/// of them are decoded, lossily, and parsed.
pub fn handle_request(received: &[u8]) -> (r: Action)
    ensures
        r@ == action_for_text(lossy_text(truncated(received@))),
{
    let n: usize = if received.len() <= CAPACITY {
        received.len()
    } else {
        CAPACITY
    };
    let mut head: Vec<u8> = Vec::new();
    let mut i: usize = 0;
    while i < n
        invariant
            n <= received@.len(),
            n == truncated(received@).len(),
            i <= n,
            head@ == received@.take(i as int),
        decreases n - i,
    {
        head.push(received[i]);
        assert(received@.take(i + 1) =~= received@.take(i as int).push(received@[i as int]));
        i = i + 1;
    }
    assert(head@ =~= truncated(received@));
    let text = decode_lossy(head.as_slice());
    respond_to_text(text.as_slice())
}

} // verus!
