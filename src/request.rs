//! The request entity and the parser that builds it from decoded bytes.
use vstd::prelude::*;
use vstd::string::StrSliceExecFns;
use vstd::string::StringSliceAdditionalSpecFns;
use crate::text::{bytes_equal, split_tokens, tokens, views};

verus! {

broadcast use vstd::string::group_string_axioms;

/// One parsed request: the three tokens of its request line and the
/// token that follows the `User-Agent:` marker (or the sentinel `none`).
#[derive(Debug, Clone, PartialEq, Eq)]
pub struct Request {
    pub method: Vec<u8>,
    pub path: Vec<u8>,
    pub version: Vec<u8>,
    pub user_agent: Vec<u8>,
}

/// Why a request could not be parsed.
#[derive(Debug, PartialEq, Eq, Structural, Clone, Copy)]
pub enum ParseError {
    /// The text holds fewer than three whitespace-separated tokens.
    Malformed,
}

/// The header marker whose following token is the user agent.
pub open spec fn agent_marker() -> Seq<u8> {
    "User-Agent:".spec_bytes()
}

/// The user agent reported when no marker with a following token is present.
pub open spec fn no_agent() -> Seq<u8> {
    "none".spec_bytes()
}

/// The user agent read from tokens `t`, scanning from index `i`: the token
/// after the first marker at or past `i`, or the sentinel when that marker
/// is missing or is the last token.
pub open spec fn agent_from(t: Seq<Seq<u8>>, i: int) -> Seq<u8>
    decreases t.len() - i,
{
    if i < 0 || i >= t.len() {
        no_agent()
    } else if t[i] == agent_marker() {
        if i + 1 < t.len() {
            t[i + 1]
        } else {
            no_agent()
        }
    } else {
        agent_from(t, i + 1)
    }
}

/// The request that `text` parses to, when it has at least three tokens.
pub open spec fn parses_to(text: Seq<u8>, q: Request) -> bool {
    let t = tokens(text);
    &&& t.len() >= 3
    &&& q.method@ == t[0]
    &&& q.path@ == t[1]
    &&& q.version@ == t[2]
    &&& q.user_agent@ == agent_from(t, 0)
}

fn copy_bytes(v: &Vec<u8>) -> (r: Vec<u8>)
    ensures
        r@ == v@,
{
    let mut r: Vec<u8> = Vec::new();
    let mut i: usize = 0;
    while i < v.len()
        invariant
            i <= v@.len(),
            r@ == v@.take(i as int),
        decreases v@.len() - i,
    {
        r.push(v[i]);
        assert(v@.take(i + 1) =~= v@.take(i as int).push(v@[i as int]));
        i = i + 1;
    }
    assert(v@ =~= v@.take(i as int));
    r
}

/// Parses decoded request text: method, path and version are the first three
/// ASCII-whitespace tokens; the user agent is the token after the first
/// `User-Agent:` token.
pub fn parse_request(text: &[u8]) -> (r: Result<Request, ParseError>)
    ensures
        r is Err <==> tokens(text@).len() < 3,
        r matches Ok(q) ==> parses_to(text@, q),
{
    let parts = split_tokens(text);
    let ghost t = tokens(text@);
    if parts.len() < 3 {
        return Err(ParseError::Malformed);
    }
    assert(views(parts@)[0] == parts@[0]@);
    assert(views(parts@)[1] == parts@[1]@);
    assert(views(parts@)[2] == parts@[2]@);
    let method = copy_bytes(&parts[0]);
    let path = copy_bytes(&parts[1]);
    let version = copy_bytes(&parts[2]);
    let marker = "User-Agent:".as_bytes_vec();
    let mut user_agent = "none".as_bytes_vec();
    let mut i: usize = 0;
    while i < parts.len()
        invariant
            t == views(parts@),
            t == tokens(text@),
            t.len() >= 3,
            method@ == t[0],
            path@ == t[1],
            version@ == t[2],
            i <= parts@.len(),
            marker@ == agent_marker(),
            user_agent@ == no_agent(),
            agent_from(t, 0) == agent_from(t, i as int),
        decreases parts@.len() - i,
    {
        assert(t[i as int] == parts@[i as int]@);
        if bytes_equal(parts[i].as_slice(), marker.as_slice()) {
            if i + 1 < parts.len() {
                assert(t[i + 1] == parts@[i + 1]@);
                user_agent = copy_bytes(&parts[i + 1]);
            }
            return Ok(Request { method, path, version, user_agent });
        }
        i = i + 1;
    }
    Ok(Request { method, path, version, user_agent })
}

} // verus!
