//! Properties of the responder stated over its specification functions.
use vstd::prelude::*;
use vstd::string::StringSliceAdditionalSpecFns;
use crate::request::{agent_from, agent_marker, no_agent};
use crate::response::{
    action_for, action_for_text, not_found_response, root_response, text_response, ActionView,
};
use crate::route::{
    agent_prefix, echo_prefix, files_prefix, get_method, is_defined_route, root_path, separator,
};
use crate::text::{has_prefix, tokens};

verus! {

broadcast use vstd::string::group_string_axioms;

/// The byte facts about the route literals that the proofs below use.
proof fn lemma_literals()
    ensures
        root_path() == seq![47u8],
        separator() == seq![47u8],
        echo_prefix().len() == 5,
        echo_prefix()[1] == 101u8,
        agent_prefix().len() == 11,
        agent_prefix()[1] == 117u8,
        files_prefix().len() == 6,
        files_prefix()[1] == 102u8,
{
    reveal_strlit("/");
    reveal_strlit("/echo");
    reveal_strlit("/user-agent");
    reveal_strlit("/files");
    assert(vstd::string::is_ascii("/"));
    assert(vstd::string::is_ascii("/echo"));
    assert(vstd::string::is_ascii("/user-agent"));
    assert(vstd::string::is_ascii("/files"));
    assert(root_path() =~= seq![47u8]);
}

/// Any method and path that no route claims is answered with the bare
/// `404 Not found` status line and no body.
pub proof fn lemma_unmatched_is_not_found(method: Seq<u8>, path: Seq<u8>, agent: Seq<u8>)
    requires
        !is_defined_route(method, path),
    ensures
        action_for(method, path, agent) == ActionView::Send(not_found_response()),
{
}

/// `GET /` is answered with `200 OK` and nothing else, whatever the user agent.
pub proof fn lemma_root_is_ok(agent: Seq<u8>)
    ensures
        action_for(get_method(), root_path(), agent) == ActionView::Send(root_response()),
{
}

/// `GET /echo/<s>` is answered with `s` as a plain-text body whose
/// `Content-Length` is the byte length of `s`.
pub proof fn lemma_echo_returns_text(s: Seq<u8>, agent: Seq<u8>)
    ensures
        action_for(get_method(), echo_prefix() + separator() + s, agent)
            == ActionView::Send(text_response(s)),
{
    lemma_literals();
    let path = echo_prefix() + separator() + s;
    assert(path.len() != root_path().len());
    assert(path.take(5) =~= echo_prefix());
    assert(path.skip(5).take(1) =~= separator());
    assert(path.skip(5).skip(1) =~= s);
}

/// `GET /files/<name>` asks for the file `name` under the base directory.
pub proof fn lemma_files_reads_name(name: Seq<u8>, agent: Seq<u8>)
    ensures
        action_for(get_method(), files_prefix() + separator() + name, agent)
            == ActionView::ReadFile(name),
{
    lemma_literals();
    let path = files_prefix() + separator() + name;
    assert(path.len() != root_path().len());
    assert(path.take(5)[1] != echo_prefix()[1]);
    if path.len() >= 11 {
        assert(path.take(11)[1] != agent_prefix()[1]);
    }
    assert(path.take(6) =~= files_prefix());
    assert(path.skip(6).take(1) =~= separator());
    assert(path.skip(6).skip(1) =~= name);
}

proof fn lemma_agent_found(t: Seq<Seq<u8>>, k: int, i: int)
    requires
        0 <= k <= i,
        i + 1 < t.len(),
        t[i] == agent_marker(),
        forall|j: int| 0 <= j < i ==> t[j] != agent_marker(),
    ensures
        agent_from(t, k) == t[i + 1],
    decreases i - k,
{
    if k < i {
        lemma_agent_found(t, k + 1, i);
    }
}

proof fn lemma_agent_missing(t: Seq<Seq<u8>>, k: int)
    requires
        0 <= k,
        forall|j: int| 0 <= j < t.len() ==> t[j] != agent_marker(),
    ensures
        agent_from(t, k) == no_agent(),
    decreases t.len() - k,
{
    if k < t.len() {
        lemma_agent_missing(t, k + 1);
    }
}

proof fn lemma_agent_path_routes(path: Seq<u8>, agent: Seq<u8>)
    requires
        has_prefix(path, agent_prefix()),
    ensures
        action_for(get_method(), path, agent) == ActionView::Send(text_response(agent)),
{
    lemma_literals();
    assert(path.len() != root_path().len());
    assert(path.take(5)[1] == path.take(11)[1]);
    assert(path.take(5)[1] != echo_prefix()[1]);
}

/// A `GET /user-agent` request whose first `User-Agent:` token is followed by
/// a token `ua` is answered with `ua` as the plain-text body.
pub proof fn lemma_agent_is_echoed(text: Seq<u8>, i: int)
    requires
        tokens(text).len() >= 3,
        tokens(text)[0] == get_method(),
        has_prefix(tokens(text)[1], agent_prefix()),
        0 <= i,
        i + 1 < tokens(text).len(),
        tokens(text)[i] == agent_marker(),
        forall|j: int| 0 <= j < i ==> tokens(text)[j] != agent_marker(),
    ensures
        action_for_text(text) == ActionView::Send(text_response(tokens(text)[i + 1])),
{
    lemma_agent_found(tokens(text), 0, i);
    lemma_agent_path_routes(tokens(text)[1], tokens(text)[i + 1]);
}

/// A `GET /user-agent` request without a `User-Agent:` token is answered
/// with the sentinel `none` as the body.
pub proof fn lemma_agent_absent_is_none(text: Seq<u8>)
    requires
        tokens(text).len() >= 3,
        tokens(text)[0] == get_method(),
        has_prefix(tokens(text)[1], agent_prefix()),
        forall|j: int| 0 <= j < tokens(text).len() ==> tokens(text)[j] != agent_marker(),
    ensures
        action_for_text(text) == ActionView::Send(text_response(no_agent())),
{
    lemma_agent_missing(tokens(text), 0);
    lemma_agent_path_routes(tokens(text)[1], no_agent());
}

} // verus!
