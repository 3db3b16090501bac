//! Dispatch of a method and path onto the fixed set of routes.
use vstd::prelude::*;
use vstd::string::StrSliceExecFns;
use vstd::string::StringSliceAdditionalSpecFns;
use crate::text::{bytes_equal, has_prefix, starts_with};

verus! {

broadcast use vstd::string::group_string_axioms;

/// The route a request is served by.
#[derive(Debug, Clone, PartialEq, Eq)]
pub enum Route {
    /// `GET /`.
    Root,
    /// `GET /echo...`, holding the text to echo.
    Echo(Vec<u8>),
    /// `GET /user-agent...`.
    UserAgent,
    /// `GET /files...`, holding the path relative to the base directory.
    /// The path is not checked for `..` segments: it may reach outside the
    /// base directory.
    Files(Vec<u8>),
    /// `POST /files...`, holding the relative path. No upload is stored and
    /// no response is written: the client sees the connection close.
    StoreFile(Vec<u8>),
    /// Anything else.
    NotFound,
}

/// The mathematical value of a [`Route`].
pub enum RouteView {
    Root,
    Echo(Seq<u8>),
    UserAgent,
    Files(Seq<u8>),
    StoreFile(Seq<u8>),
    NotFound,
}

impl View for Route {
    type V = RouteView;

    open spec fn view(&self) -> RouteView {
        match self {
            Route::Root => RouteView::Root,
            Route::Echo(s) => RouteView::Echo(s@),
            Route::UserAgent => RouteView::UserAgent,
            Route::Files(s) => RouteView::Files(s@),
            Route::StoreFile(s) => RouteView::StoreFile(s@),
            Route::NotFound => RouteView::NotFound,
        }
    }
}

pub open spec fn get_method() -> Seq<u8> {
    "GET".spec_bytes()
}

pub open spec fn post_method() -> Seq<u8> {
    "POST".spec_bytes()
}

pub open spec fn root_path() -> Seq<u8> {
    "/".spec_bytes()
}

pub open spec fn separator() -> Seq<u8> {
    "/".spec_bytes()
}

pub open spec fn echo_prefix() -> Seq<u8> {
    "/echo".spec_bytes()
}

pub open spec fn agent_prefix() -> Seq<u8> {
    "/user-agent".spec_bytes()
}

pub open spec fn files_prefix() -> Seq<u8> {
    "/files".spec_bytes()
}

/// `s` without one leading separator, if it has one.
pub open spec fn strip_separator(s: Seq<u8>) -> Seq<u8> {
    if has_prefix(s, separator()) {
        s.skip(separator().len() as int)
    } else {
        s
    }
}

/// What is left of `path` after `prefix` and then one leading separator.
pub open spec fn rest_after(path: Seq<u8>, prefix: Seq<u8>) -> Seq<u8> {
    strip_separator(path.skip(prefix.len() as int))
}

/// Whether `(method, path)` is served by one of the defined routes.
pub open spec fn is_defined_route(method: Seq<u8>, path: Seq<u8>) -> bool {
    ||| method == get_method() && path == root_path()
    ||| method == get_method() && has_prefix(path, echo_prefix())
    ||| method == get_method() && has_prefix(path, agent_prefix())
    ||| method == get_method() && has_prefix(path, files_prefix())
    ||| method == post_method() && has_prefix(path, files_prefix())
}

/// The route of `(method, path)`; prefixes are tried in the order
/// root, echo, user agent, files.
pub open spec fn route_of(method: Seq<u8>, path: Seq<u8>) -> RouteView {
    if method == get_method() {
        if path == root_path() {
            RouteView::Root
        } else if has_prefix(path, echo_prefix()) {
            RouteView::Echo(rest_after(path, echo_prefix()))
        } else if has_prefix(path, agent_prefix()) {
            RouteView::UserAgent
        } else if has_prefix(path, files_prefix()) {
            RouteView::Files(rest_after(path, files_prefix()))
        } else {
            RouteView::NotFound
        }
    } else if method == post_method() && has_prefix(path, files_prefix()) {
        RouteView::StoreFile(rest_after(path, files_prefix()))
    } else {
        RouteView::NotFound
    }
}

/// The bytes of `path` after `prefix` and one leading separator.
fn rest_of(path: &[u8], prefix: &Vec<u8>) -> (r: Vec<u8>)
    requires
        has_prefix(path@, prefix@),
    ensures
        r@ == rest_after(path@, prefix@),
{
    let sep = "/".as_bytes_vec();
    proof {
        reveal_strlit("/");
        assert(vstd::string::is_ascii("/"));
        assert(sep@ =~= seq![47u8]);
    }
    let mut k: usize = prefix.len();
    if k < path.len() && path[k] == sep[0] {
        assert(path@.skip(prefix@.len() as int).take(1) =~= sep@);
        k = k + 1;
    } else {
        proof {
            let s = path@.skip(prefix@.len() as int);
            if has_prefix(s, separator()) {
                assert(s.take(1)[0] == s[0]);
            }
        }
    }
    let mut r: Vec<u8> = Vec::new();
    let mut i: usize = k;
    while i < path.len()
        invariant
            k <= i <= path@.len(),
            r@ == path@.subrange(k as int, i as int),
        decreases path@.len() - i,
    {
        r.push(path[i]);
        assert(path@.subrange(k as int, i + 1) =~= path@.subrange(k as int, i as int).push(path@[i as int]));
        i = i + 1;
    }
    proof {
        let s = path@.skip(prefix@.len() as int);
        if has_prefix(s, separator()) {
            assert(s.skip(1) =~= path@.subrange(k as int, path@.len() as int));
        } else {
            assert(s =~= path@.subrange(k as int, path@.len() as int));
        }
    }
    r
}

/// Chooses the route that serves `method` and `path`.
pub fn route(method: &[u8], path: &[u8]) -> (r: Route)
    ensures
        r@ == route_of(method@, path@),
{
    let get = "GET".as_bytes_vec();
    let post = "POST".as_bytes_vec();
    let root = "/".as_bytes_vec();
    let echo = "/echo".as_bytes_vec();
    let agent = "/user-agent".as_bytes_vec();
    let files = "/files".as_bytes_vec();
    if bytes_equal(method, get.as_slice()) {
        if bytes_equal(path, root.as_slice()) {
            Route::Root
        } else if starts_with(path, echo.as_slice()) {
            Route::Echo(rest_of(path, &echo))
        } else if starts_with(path, agent.as_slice()) {
            Route::UserAgent
        } else if starts_with(path, files.as_slice()) {
            Route::Files(rest_of(path, &files))
        } else {
            Route::NotFound
        }
    } else if bytes_equal(method, post.as_slice()) && starts_with(path, files.as_slice()) {
        Route::StoreFile(rest_of(path, &files))
    } else {
        Route::NotFound
    }
}

} // verus!
