use fixed_responder::request::{parse_request, ParseError};
use fixed_responder::response::{file_reply, handle_request, respond_to_text, Action, CAPACITY};
use fixed_responder::route::{route, Route};
use fixed_responder::text::{bytes_equal, push_decimal, split_tokens, starts_with};

fn text_ok(body: &[u8]) -> Vec<u8> {
    let mut v = format!(
        "HTTP/1.1 200 OK\r\nContent-Type: text/plain\r\nContent-Length: {}\r\n\r\n",
        body.len()
    )
    .into_bytes();
    v.extend_from_slice(body);
    v
}

fn send(bytes: &[u8]) -> Action {
    Action::Send(bytes.to_vec())
}

#[test]
fn tokens_collapse_whitespace() {
    let t = split_tokens(b"  GET \t/a\r\n\r\nHTTP/1.1\x0c x  ");
    assert_eq!(t, vec![b"GET".to_vec(), b"/a".to_vec(), b"HTTP/1.1".to_vec(), b"x".to_vec()]);
    assert!(split_tokens(b"").is_empty());
    assert!(split_tokens(b" \r\n\t").is_empty());
}

#[test]
fn tokens_keep_vertical_tab() {
    let t = split_tokens(b"a\x0bb c");
    assert_eq!(t, vec![b"a\x0bb".to_vec(), b"c".to_vec()]);
}

#[test]
fn decimal_digits() {
    let mut v = b"n=".to_vec();
    push_decimal(&mut v, 0);
    assert_eq!(v, b"n=0".to_vec());
    let mut w = Vec::new();
    push_decimal(&mut w, 1234567890);
    assert_eq!(w, b"1234567890".to_vec());
    let mut z = Vec::new();
    push_decimal(&mut z, 10);
    assert_eq!(z, b"10".to_vec());
}

#[test]
fn prefix_and_equality() {
    assert!(starts_with(b"/echo/x", b"/echo"));
    assert!(starts_with(b"/echo", b"/echo"));
    assert!(!starts_with(b"/ech", b"/echo"));
    assert!(!starts_with(b"/Echo", b"/echo"));
    assert!(bytes_equal(b"GET", b"GET"));
    assert!(!bytes_equal(b"GET", b"GETS"));
    assert!(!bytes_equal(b"GET", b"PUT"));
}

#[test]
fn parse_full_request() {
    let req = parse_request(b"GET /echo/abc HTTP/1.1\r\nHost: localhost\r\nUser-Agent: curl/7.64.1\r\n\r\n")
        .unwrap();
    assert_eq!(req.method, b"GET".to_vec());
    assert_eq!(req.path, b"/echo/abc".to_vec());
    assert_eq!(req.version, b"HTTP/1.1".to_vec());
    assert_eq!(req.user_agent, b"curl/7.64.1".to_vec());
}

#[test]
fn parse_without_agent_gives_sentinel() {
    let req = parse_request(b"GET / HTTP/1.1\r\nHost: localhost\r\n\r\n").unwrap();
    assert_eq!(req.user_agent, b"none".to_vec());
}

#[test]
fn parse_marker_as_last_token_gives_sentinel() {
    let req = parse_request(b"GET /user-agent HTTP/1.1\r\nUser-Agent:").unwrap();
    assert_eq!(req.user_agent, b"none".to_vec());
}

#[test]
fn parse_first_marker_wins() {
    let req = parse_request(b"GET / HTTP/1.1 User-Agent: one User-Agent: two").unwrap();
    assert_eq!(req.user_agent, b"one".to_vec());
}

#[test]
fn parse_marker_is_case_sensitive() {
    let req = parse_request(b"GET / HTTP/1.1 user-agent: one").unwrap();
    assert_eq!(req.user_agent, b"none".to_vec());
}

#[test]
fn parse_too_few_tokens_is_malformed() {
    assert_eq!(parse_request(b"GET /"), Err(ParseError::Malformed));
    assert_eq!(parse_request(b""), Err(ParseError::Malformed));
    assert_eq!(parse_request(b"   \r\n"), Err(ParseError::Malformed));
}

#[test]
fn routes_by_method_and_prefix() {
    assert_eq!(route(b"GET", b"/"), Route::Root);
    assert_eq!(route(b"GET", b"/echo/hi"), Route::Echo(b"hi".to_vec()));
    assert_eq!(route(b"GET", b"/echo"), Route::Echo(Vec::new()));
    assert_eq!(route(b"GET", b"/echoes"), Route::Echo(b"es".to_vec()));
    assert_eq!(route(b"GET", b"/echo//x"), Route::Echo(b"/x".to_vec()));
    assert_eq!(route(b"GET", b"/user-agent"), Route::UserAgent);
    assert_eq!(route(b"GET", b"/files/a/b.txt"), Route::Files(b"a/b.txt".to_vec()));
    assert_eq!(route(b"POST", b"/files/new"), Route::StoreFile(b"new".to_vec()));
    assert_eq!(route(b"POST", b"/echo/x"), Route::NotFound);
    assert_eq!(route(b"GET", b"/other"), Route::NotFound);
    assert_eq!(route(b"GET", b""), Route::NotFound);
    assert_eq!(route(b"PUT", b"/"), Route::NotFound);
    assert_eq!(route(b"get", b"/"), Route::NotFound);
}

#[test]
fn root_is_bare_ok() {
    assert_eq!(handle_request(b"GET / HTTP/1.1\r\n\r\n"), send(b"HTTP/1.1 200 OK\r\n\r\n"));
}

#[test]
fn echo_returns_rest_of_path() {
    assert_eq!(
        handle_request(b"GET /echo/banana HTTP/1.1\r\n\r\n"),
        send(b"HTTP/1.1 200 OK\r\nContent-Type: text/plain\r\nContent-Length: 6\r\n\r\nbanana")
    );
}

#[test]
fn echo_empty_body() {
    assert_eq!(
        handle_request(b"GET /echo/ HTTP/1.1\r\n\r\n"),
        send(b"HTTP/1.1 200 OK\r\nContent-Type: text/plain\r\nContent-Length: 0\r\n\r\n")
    );
}

#[test]
fn echo_decodes_invalid_utf8_lossily() {
    let expected = text_ok("a\u{FFFD}b".as_bytes());
    assert_eq!(handle_request(b"GET /echo/a\xffb HTTP/1.1\r\n\r\n"), Action::Send(expected));
}

#[test]
fn user_agent_is_echoed() {
    assert_eq!(
        handle_request(b"GET /user-agent HTTP/1.1\r\nHost: localhost:4221\r\nUser-Agent: foobar/1.2.3\r\n\r\n"),
        Action::Send(text_ok(b"foobar/1.2.3"))
    );
}

#[test]
fn user_agent_absent_is_none() {
    assert_eq!(
        handle_request(b"GET /user-agent HTTP/1.1\r\nHost: localhost\r\n\r\n"),
        send(b"HTTP/1.1 200 OK\r\nContent-Type: text/plain\r\nContent-Length: 4\r\n\r\nnone")
    );
}

#[test]
fn unknown_paths_and_methods_are_not_found() {
    let nf = send(b"HTTP/1.1 404 Not found\r\n\r\n");
    assert_eq!(handle_request(b"GET /nothing HTTP/1.1\r\n\r\n"), nf);
    assert_eq!(handle_request(b"POST /echo/x HTTP/1.1\r\n\r\n"), nf);
    assert_eq!(handle_request(b"DELETE / HTTP/1.1\r\n\r\n"), nf);
    assert_eq!(handle_request(b"PUT /files/a HTTP/1.1\r\n\r\n"), nf);
}

#[test]
fn files_asks_for_relative_path() {
    assert_eq!(
        handle_request(b"GET /files/notes.txt HTTP/1.1\r\n\r\n"),
        Action::ReadFile(b"notes.txt".to_vec())
    );
}

#[test]
fn post_files_sends_nothing() {
    assert_eq!(handle_request(b"POST /files/new.txt HTTP/1.1\r\n\r\nbody"), Action::Silent);
}

#[test]
fn malformed_request_sends_nothing() {
    assert_eq!(handle_request(b"GET /"), Action::Silent);
    assert_eq!(handle_request(b""), Action::Silent);
}

#[test]
fn file_reply_frames_contents() {
    assert_eq!(
        file_reply(Some(b"hello, world".to_vec())),
        b"HTTP/1.1 200 OK\r\nContent-Type: application/octet-stream\r\nContent-Length: 12\r\n\r\nhello, world"
            .to_vec()
    );
    let binary = vec![0u8, 255, 13, 10, 13, 10];
    let mut expected =
        b"HTTP/1.1 200 OK\r\nContent-Type: application/octet-stream\r\nContent-Length: 6\r\n\r\n".to_vec();
    expected.extend_from_slice(&binary);
    assert_eq!(file_reply(Some(binary)), expected);
}

#[test]
fn file_reply_missing_is_empty_not_found() {
    assert_eq!(
        file_reply(None),
        b"HTTP/1.1 404 Not found\r\nContent-Type: application/octet-stream\r\nContent-Length: 0\r\n\r\n".to_vec()
    );
}

#[test]
fn long_request_is_truncated() {
    let mut raw = b"GET /user-agent HTTP/1.1\r\nHost: ".to_vec();
    raw.extend(std::iter::repeat(b'h').take(150));
    raw.extend_from_slice(b"\r\nUser-Agent: late/1.0\r\n\r\n");
    assert!(raw.len() > CAPACITY);
    assert_eq!(handle_request(&raw), Action::Send(text_ok(b"none")));
}

#[test]
fn echo_is_cut_at_capacity() {
    let mut raw = b"GET /echo/".to_vec();
    raw.extend(std::iter::repeat(b'z').take(200));
    raw.extend_from_slice(b" HTTP/1.1\r\n\r\n");
    // only two tokens fall within the capacity
    assert_eq!(handle_request(&raw), Action::Silent);
    let mut short = b"GET /echo/".to_vec();
    short.extend(std::iter::repeat(b'z').take(100));
    short.extend_from_slice(b" HTTP/1.1\r\n\r\n");
    let body = vec![b'z'; 100];
    assert_eq!(handle_request(&short), Action::Send(text_ok(&body)));
}

#[test]
fn separate_requests_get_their_own_answers() {
    let a = handle_request(b"GET /user-agent HTTP/1.1\r\nUser-Agent: alpha\r\n\r\n");
    let b = handle_request(b"GET /echo/beta HTTP/1.1\r\nUser-Agent: gamma\r\n\r\n");
    assert_eq!(a, Action::Send(text_ok(b"alpha")));
    assert_eq!(b, Action::Send(text_ok(b"beta")));
}

#[test]
fn text_level_entry_matches_handler() {
    let req = b"GET /echo/same HTTP/1.1\r\n\r\n";
    assert_eq!(respond_to_text(req), handle_request(req));
}
