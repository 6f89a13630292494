//! The loopback listener that receives the authorization redirect.
//!
//! The listener is a state machine. The caller owns the socket: it binds,
//! accepts, reads the request line and hands method, path and query to
//! `handle_callback`, which says what to answer and whether the pending wait
//! is to be resolved.

use crate::decimal::{decimal, format_u64};
use crate::error::{EngineError, ErrorKind};
use crate::pattern::opt_view;
use crate::text::{
    chars_of, find_between, first_index, lemma_first_index_from, lemma_first_index_is,
    occurs_at_index, same_text, string_of_range,
};
use vstd::prelude::*;
use vstd::string::StringExecFns;

verus! {

/// The address on which the listener listens: the loopback address, so that
/// only the local machine can reach it.
pub const LOOPBACK_ADDRESS: [u8; 4] = [127, 0, 0, 1];

/// The path on which the redirect is expected.
pub const CALLBACK_PATH: &'static str = "/callback";

/// The method with which the redirect is expected.
pub const CALLBACK_METHOD: &'static str = "GET";

/// The query parameter that carries the authorization code.
pub const PARAM_CODE: &'static str = "code";

/// The query parameter that carries a refusal.
pub const PARAM_ERROR: &'static str = "error";

/// Seconds after which the wait for a code is given up.
pub const WAIT_TIMEOUT_SECONDS: u64 = 300;

/// What the failure page says when the redirect carries neither a code nor
/// an error.
pub const NO_CODE_MESSAGE: &'static str = "No authorization code received";

/// The body of the answer to any other request.
pub const NOT_FOUND_BODY: &'static str = "Not Found";

/// The message of the failure when the wait ran out.
pub const TIMEOUT_MESSAGE: &'static str = "Timeout waiting for authorization";

/// The message of the failure when the listener went away before a code
/// came.
pub const CLOSED_MESSAGE: &'static str = "Channel closed";

/// What the message of a bind failure starts with; the port follows.
pub const BIND_FAILURE_PREFIX: &'static str = "Failed to bind to port ";

/// What stands between the port and the cause in the message of a bind
/// failure.
pub const BIND_FAILURE_SEPARATOR: &'static str = ": ";

/// The page shown after a code was received.
pub const SUCCESS_PAGE: &'static str = r#"
<!DOCTYPE html>
<html>
<head>
    <meta charset="UTF-8">
    <title>Signed In</title>
    <style>
        * { margin: 0; padding: 0; box-sizing: border-box; }
        body {
            font-family: -apple-system, BlinkMacSystemFont, 'Segoe UI', system-ui, sans-serif;
            display: flex;
            justify-content: center;
            align-items: center;
            min-height: 100vh;
            background: linear-gradient(135deg, #1a1a1a 0%, #0a0a0a 100%);
            color: #fff;
        }
        .container {
            text-align: center;
            padding: 48px;
        }
        .icon {
            width: 64px;
            height: 64px;
            margin: 0 auto 24px;
            background: linear-gradient(135deg, #22c55e 0%, #16a34a 100%);
            border-radius: 50%;
            display: flex;
            align-items: center;
            justify-content: center;
            box-shadow: 0 0 40px rgba(34, 197, 94, 0.3);
        }
        .icon svg {
            width: 32px;
            height: 32px;
            stroke: white;
            stroke-width: 3;
            fill: none;
        }
        h1 {
            font-size: 24px;
            font-weight: 600;
            margin-bottom: 8px;
            letter-spacing: -0.02em;
        }
        p {
            color: rgba(255,255,255,0.5);
            font-size: 14px;
        }
    </style>
</head>
<body>
    <div class="container">
        <div class="icon">
            <svg viewBox="0 0 24 24"><polyline points="20 6 9 17 4 12"></polyline></svg>
        </div>
        <h1>Signed In</h1>
        <p>You can close this tab.</p>
    </div>
    <script>setTimeout(() => window.close(), 2000);</script>
</body>
</html>
    "#;

/// The failure page up to the message.
pub const FAILURE_PAGE_HEAD: &'static str = r#"
<!DOCTYPE html>
<html>
<head>
    <meta charset="UTF-8">
    <title>Sign In Failed</title>
    <style>
        * { margin: 0; padding: 0; box-sizing: border-box; }
        body {
            font-family: -apple-system, BlinkMacSystemFont, 'Segoe UI', system-ui, sans-serif;
            display: flex;
            justify-content: center;
            align-items: center;
            min-height: 100vh;
            background: linear-gradient(135deg, #1a1a1a 0%, #0a0a0a 100%);
            color: #fff;
        }
        .container {
            text-align: center;
            padding: 48px;
            max-width: 400px;
        }
        .icon {
            width: 64px;
            height: 64px;
            margin: 0 auto 24px;
            background: linear-gradient(135deg, #ef4444 0%, #dc2626 100%);
            border-radius: 50%;
            display: flex;
            align-items: center;
            justify-content: center;
            box-shadow: 0 0 40px rgba(239, 68, 68, 0.3);
        }
        .icon svg {
            width: 32px;
            height: 32px;
            stroke: white;
            stroke-width: 3;
            fill: none;
        }
        h1 {
            font-size: 24px;
            font-weight: 600;
            margin-bottom: 8px;
            letter-spacing: -0.02em;
        }
        p {
            color: rgba(255,255,255,0.5);
            font-size: 14px;
        }
    </style>
</head>
<body>
    <div class="container">
        <div class="icon">
            <svg viewBox="0 0 24 24"><line x1="18" y1="6" x2="6" y2="18"></line><line x1="6" y1="6" x2="18" y2="18"></line></svg>
        </div>
        <h1>Sign In Failed</h1>
        <p>"#;

/// The failure page after the message.
pub const FAILURE_PAGE_TAIL: &'static str = r#"</p>
    </div>
</body>
</html>
        "#;

/// The pieces of `s` between occurrences of `sep`.
pub open spec fn split_on(s: Seq<char>, sep: char) -> Seq<Seq<char>>
    decreases s.len(),
{
    match first_index(s, sep) {
        Some(i) => {
            proof {
                lemma_first_index_from(s, sep, 0);
            }
            seq![s.take(i)] + split_on(s.skip(i + 1), sep)
        },
        None => seq![s],
    }
}

/// What stands before and after the first `sep` in `s`.
pub open spec fn split_once(s: Seq<char>, sep: char) -> Option<(Seq<char>, Seq<char>)> {
    match first_index(s, sep) {
        Some(i) => Some((s.take(i), s.skip(i + 1))),
        None => None,
    }
}

/// The value that `segment` gives to `key`: what follows its first `=`, when
/// what precedes it is `key`.
pub open spec fn value_in(segment: Seq<char>, key: Seq<char>) -> Option<Seq<char>> {
    match split_once(segment, '=') {
        Some((k, v)) => if k == key {
            Some(v)
        } else {
            None
        },
        None => None,
    }
}

/// The first of two options that is present.
pub open spec fn or_else(a: Option<Seq<char>>, b: Option<Seq<char>>) -> Option<Seq<char>> {
    if a is Some {
        a
    } else {
        b
    }
}

/// The value that the last of `segments` with the key `key` gives to it.
pub open spec fn last_value(segments: Seq<Seq<char>>, key: Seq<char>) -> Option<Seq<char>>
    decreases segments.len(),
{
    if segments.len() == 0 {
        None
    } else {
        or_else(value_in(segments.last(), key), last_value(segments.drop_last(), key))
    }
}

/// The value of the parameter `key` in a query string.
///
/// The query is cut at each `&`. A piece without `=` is no parameter. Where
/// several pieces name `key`, the last one counts. Nothing is unescaped.
pub open spec fn query_param(query: Seq<char>, key: Seq<char>) -> Option<Seq<char>> {
    last_value(split_on(query, '&'), key)
}

/// The failure page with `message` in it.
pub open spec fn failure_page(message: Seq<char>) -> Seq<char> {
    FAILURE_PAGE_HEAD@ + message + FAILURE_PAGE_TAIL@
}

/// Where a listener stands.
#[derive(Clone, Copy, Debug, PartialEq, Eq, Structural)]
pub enum ListenerState {
    /// Made, not yet bound.
    Idle,
    /// Bound and accepting; the wait for a code is pending.
    Listening,
    /// A code came and the wait was resolved with it.
    CodeReceived,
    /// The redirect carried a refusal. The wait was abandoned without a
    /// code.
    Error,
    /// The wait ran out.
    TimedOut,
    /// Shut down by the caller.
    Closed,
}

/// Whether a request is the redirect: a `GET` on the callback path.
pub open spec fn is_callback(method: Seq<char>, path: Seq<char>) -> bool {
    path == CALLBACK_PATH@ && method == CALLBACK_METHOD@
}

/// The status of the answer to a request.
pub open spec fn response_status(method: Seq<char>, path: Seq<char>) -> u16 {
    if is_callback(method, path) {
        200
    } else {
        404
    }
}

/// The body of the answer to a request.
pub open spec fn response_body(method: Seq<char>, path: Seq<char>, query: Seq<char>) -> Seq<char> {
    if !is_callback(method, path) {
        NOT_FOUND_BODY@
    } else if query_param(query, PARAM_CODE@) is Some {
        SUCCESS_PAGE@
    } else {
        match query_param(query, PARAM_ERROR@) {
            Some(e) => failure_page(e),
            None => failure_page(NO_CODE_MESSAGE@),
        }
    }
}

/// The code with which a request resolves the pending wait, if it does.
/// Only a listening listener has a pending wait.
pub open spec fn delivery(
    state: ListenerState,
    method: Seq<char>,
    path: Seq<char>,
    query: Seq<char>,
) -> Option<Seq<char>> {
    if state == ListenerState::Listening && is_callback(method, path) {
        query_param(query, PARAM_CODE@)
    } else {
        None
    }
}

/// Whether a request ends the pending wait without a code: it does when it
/// carries a refusal, and no code, to a listening listener. The session is
/// then over, and the one who waits is told that the listener went away.
pub open spec fn abandons_wait(
    state: ListenerState,
    method: Seq<char>,
    path: Seq<char>,
    query: Seq<char>,
) -> bool {
    &&& state == ListenerState::Listening
    &&& is_callback(method, path)
    &&& query_param(query, PARAM_CODE@) is None
    &&& query_param(query, PARAM_ERROR@) is Some
}

/// Where the listener stands after a request.
pub open spec fn after_request(
    state: ListenerState,
    method: Seq<char>,
    path: Seq<char>,
    query: Seq<char>,
) -> ListenerState {
    if state == ListenerState::Listening && is_callback(method, path) {
        if query_param(query, PARAM_CODE@) is Some {
            ListenerState::CodeReceived
        } else if query_param(query, PARAM_ERROR@) is Some {
            ListenerState::Error
        } else {
            ListenerState::Listening
        }
    } else {
        state
    }
}

/// The message of a bind failure.
pub open spec fn bind_failure_message(port: u16, cause: Seq<char>) -> Seq<char> {
    BIND_FAILURE_PREFIX@ + decimal(port as nat) + BIND_FAILURE_SEPARATOR@ + cause
}

/// Putting a piece in front of a run of pieces lets the later pieces decide
/// first.
proof fn lemma_last_value_front(first: Seq<char>, rest: Seq<Seq<char>>, key: Seq<char>)
    ensures
        last_value(seq![first] + rest, key) == or_else(
            last_value(rest, key),
            value_in(first, key),
        ),
    decreases rest.len(),
{
    let all = seq![first] + rest;
    assert(all.len() == rest.len() + 1);
    assert(last_value(all, key) == or_else(
        value_in(all.last(), key),
        last_value(all.drop_last(), key),
    ));
    if rest.len() == 0 {
        assert(all.drop_last() =~= Seq::<Seq<char>>::empty());
        assert(all.last() == first);
        assert(last_value(all.drop_last(), key) is None);
        assert(last_value(rest, key) is None);
    } else {
        lemma_last_value_front(first, rest.drop_last(), key);
        assert(all.drop_last() =~= seq![first] + rest.drop_last());
        assert(all.last() == rest.last());
    }
}

/// A query of one parameter gives that parameter's value, as long as the
/// key holds no `=` and neither key nor value holds `&`.
pub proof fn lemma_single_param(key: Seq<char>, value: Seq<char>)
    requires
        !key.contains('='),
        !key.contains('&'),
        !value.contains('&'),
    ensures
        query_param(key + seq!['='] + value, key) == Some(value),
{
    let q = key + seq!['='] + value;
    assert forall|j: int| 0 <= j < q.len() implies q[j] != '&' by {
        if j < key.len() {
            assert(key.contains(q[j]));
        } else if j > key.len() {
            assert(value[j - key.len() - 1] == q[j]);
            assert(value.contains(q[j]));
        }
    }
    lemma_first_index_is(q, '&', q.len() as int);
    assert(split_on(q, '&') == seq![q]);
    assert forall|j: int| 0 <= j < key.len() implies q[j] != '=' by {
        assert(key.contains(q[j]));
    }
    lemma_first_index_is(q, '=', key.len() as int);
    assert(q.take(key.len() as int) =~= key);
    assert(q.skip(key.len() as int + 1) =~= value);
    assert(seq![q].drop_last() =~= Seq::<Seq<char>>::empty());
    assert(seq![q].last() == q);
}

/// The value of the parameter `key` in a query string.
pub fn query_value(query: &str, key: &str) -> (value: Option<String>)
    ensures
        opt_view(value) == query_param(query@, key@),
{
    let q = chars_of(query);
    let k = chars_of(key);
    let mut found: Option<(usize, usize)> = None;
    let mut from: usize = 0;
    let ghost mut found_value: Option<Seq<char>> = None;
    assert(q@.skip(0) =~= q@);
    loop
        invariant_except_break
            from <= q.len(),
            q@ == query@,
            k@ == key@,
            match found {
                Some((a, b)) => a <= b <= q.len() && found_value == Some(
                    q@.subrange(a as int, b as int),
                ),
                None => found_value is None,
            },
            query_param(q@, k@) == or_else(
                last_value(split_on(q@.skip(from as int), '&'), k@),
                found_value,
            ),
        ensures
            q@ == query@,
            k@ == key@,
            match found {
                Some((a, b)) => a <= b <= q.len() && found_value == Some(
                    q@.subrange(a as int, b as int),
                ),
                None => found_value is None,
            },
            query_param(q@, k@) == found_value,
        decreases q.len() - from,
    {
        let ghost rest = q@.skip(from as int);
        let end = find_between(&q, '&', from, q.len());
        let eq = find_between(&q, '=', from, end);
        let ghost segment = q@.subrange(from as int, end as int);
        proof {
            assert forall|j: int| 0 <= j < end - from implies rest[j] != '&' by {
                assert(rest[j] == q@[from + j]);
            }
            lemma_first_index_is(rest, '&', end - from);
            assert(rest.take(end - from) =~= segment);
            assert forall|j: int| 0 <= j < eq - from implies segment[j] != '=' by {
                assert(segment[j] == q@[from + j]);
            }
            lemma_first_index_is(segment, '=', eq - from);
        }
        let mut here: Option<(usize, usize)> = None;
        if eq < end {
            let same = eq - from == k.len() && occurs_at_index(&q, &k, from);
            proof {
                assert(segment.take(eq - from) =~= q@.subrange(from as int, eq as int));
                assert(segment.skip(eq - from + 1) =~= q@.subrange(eq + 1, end as int));
            }
            if same {
                here = Some((eq + 1, end));
            }
        }
        let ghost here_value: Option<Seq<char>> = match here {
            Some((a, b)) => Some(q@.subrange(a as int, b as int)),
            None => None,
        };
        assert(here_value == value_in(segment, k@));
        if here.is_some() {
            found = here;
            proof {
                found_value = here_value;
            }
        }
        if end >= q.len() {
            proof {
                assert(split_on(rest, '&') == seq![rest]);
                assert(rest =~= segment);
                assert(seq![rest].drop_last() =~= Seq::<Seq<char>>::empty());
                assert(seq![rest].last() == rest);
                assert(last_value(seq![rest].drop_last(), k@) is None);
                assert(last_value(seq![rest], k@) == or_else(
                    value_in(seq![rest].last(), k@),
                    last_value(seq![rest].drop_last(), k@),
                ));
                assert(last_value(split_on(rest, '&'), k@) == here_value);
            }
            break;
        }
        proof {
            assert(rest.skip(end - from + 1) =~= q@.skip(end + 1));
            lemma_last_value_front(segment, split_on(q@.skip(end + 1), '&'), k@);
        }
        from = end + 1;
    }
    match found {
        Some((a, b)) => Some(string_of_range(&q, a, b)),
        None => None,
    }
}

/// The page shown after a code was received.
pub fn success_html() -> (page: String)
    ensures
        page@ == SUCCESS_PAGE@,
{
    SUCCESS_PAGE.to_owned()
}

/// The failure page with `error` in it.
pub fn error_html(error: &str) -> (page: String)
    ensures
        page@ == failure_page(error@),
{
    let mut page = FAILURE_PAGE_HEAD.to_owned();
    page.append(error);
    page.append(FAILURE_PAGE_TAIL);
    page
}

/// The answer to a request.
#[derive(Debug, PartialEq, Eq)]
pub struct CallbackResponse {
    /// The HTTP status.
    pub status: u16,
    /// Whether the body is an HTML page, to be sent as `text/html`.
    pub html: bool,
    /// The body.
    pub body: String,
    /// The code with which the pending wait is to be resolved, if this
    /// request resolves it.
    pub deliver: Option<String>,
    /// Whether the pending wait is to be ended without a code, as when the
    /// listener goes away.
    pub abandon_wait: bool,
}

/// How the wait for a code ended.
#[derive(Debug, PartialEq, Eq)]
pub enum WaitOutcome {
    /// The listener delivered a code.
    Code(String),
    /// No code came within the time allowed.
    Elapsed,
    /// The listener went away without delivering.
    Closed,
}

/// One login attempt's listener.
#[derive(Debug)]
pub struct OAuthServer {
    pub port: u16,
    pub state: ListenerState,
}

impl OAuthServer {
    /// A listener for `port` that is not bound yet.
    pub fn new(port: u16) -> (server: Self)
        ensures
            server.port == port,
            server.state == ListenerState::Idle,
    {
        OAuthServer { port, state: ListenerState::Idle }
    }

    /// Starts a listener on `port`, given how binding the loopback address
    /// went. A bind failure is reported and not retried.
    pub fn start(port: u16, bound: Result<(), String>) -> (started: Result<Self, EngineError>)
        ensures
            match bound {
                Ok(_) => started is Ok && started->Ok_0.port == port && started->Ok_0.state
                    == ListenerState::Listening,
                Err(cause) => started is Err && started->Err_0.carries(
                    ErrorKind::Transport,
                    bind_failure_message(port, cause@),
                ),
            },
    {
        match bound {
            Ok(_) => Ok(OAuthServer { port, state: ListenerState::Listening }),
            Err(cause) => {
                let mut message = BIND_FAILURE_PREFIX.to_owned();
                message.append(format_u64(port as u64).as_str());
                message.append(BIND_FAILURE_SEPARATOR);
                message.append(cause.as_str());
                Err(EngineError { kind: ErrorKind::Transport, message })
            },
        }
    }

    /// Whether the accept loop is to go on.
    pub fn is_listening(&self) -> (r: bool)
        ensures
            r == (self.state == ListenerState::Listening),
    {
        self.state == ListenerState::Listening
    }

    /// Answers one request.
    ///
    /// A `GET` on the callback path with a `code` parameter gets the success
    /// page; if the wait is still pending it is resolved with the code, once.
    /// With an `error` parameter it gets the failure page showing the error;
    /// the wait is not resolved, and if it is still pending the session ends
    /// and the wait is to be abandoned. With neither it gets the failure
    /// page with a fixed message. Anything else gets 404.
    pub fn handle_callback(&mut self, method: &str, path: &str, query: &str) -> (response:
        CallbackResponse)
        ensures
            final(self).port == old(self).port,
            final(self).state == after_request(old(self).state, method@, path@, query@),
            response.status == response_status(method@, path@),
            response.html == is_callback(method@, path@),
            response.body@ == response_body(method@, path@, query@),
            opt_view(response.deliver) == delivery(old(self).state, method@, path@, query@),
            response.abandon_wait == abandons_wait(old(self).state, method@, path@, query@),
    {
        if !(same_text(path, CALLBACK_PATH) && same_text(method, CALLBACK_METHOD)) {
            return CallbackResponse {
                status: 404,
                html: false,
                body: NOT_FOUND_BODY.to_owned(),
                deliver: None,
                abandon_wait: false,
            };
        }
        let pending = self.state == ListenerState::Listening;
        match query_value(query, PARAM_CODE) {
            Some(code) => {
                let deliver = if pending {
                    self.state = ListenerState::CodeReceived;
                    Some(code)
                } else {
                    None
                };
                CallbackResponse {
                    status: 200,
                    html: true,
                    body: success_html(),
                    deliver,
                    abandon_wait: false,
                }
            },
            None => match query_value(query, PARAM_ERROR) {
                Some(error) => {
                    if pending {
                        self.state = ListenerState::Error;
                    }
                    CallbackResponse {
                        status: 200,
                        html: true,
                        body: error_html(error.as_str()),
                        deliver: None,
                        abandon_wait: pending,
                    }
                },
                None => CallbackResponse {
                    status: 200,
                    html: true,
                    body: error_html(NO_CODE_MESSAGE),
                    deliver: None,
                    abandon_wait: false,
                },
            },
        }
    }

    /// Turns the end of the wait into the attempt's result, and records a
    /// timeout in the listener's state.
    pub fn wait_for_code(&mut self, outcome: WaitOutcome) -> (code: Result<String, EngineError>)
        ensures
            final(self).port == old(self).port,
            final(self).state == (if outcome is Elapsed && old(self).state
                == ListenerState::Listening {
                ListenerState::TimedOut
            } else {
                old(self).state
            }),
            match outcome {
                WaitOutcome::Code(c) => code == Ok::<String, EngineError>(c),
                WaitOutcome::Elapsed => code is Err && code->Err_0.carries(
                    ErrorKind::Timeout,
                    TIMEOUT_MESSAGE@,
                ),
                WaitOutcome::Closed => code is Err && code->Err_0.carries(
                    ErrorKind::State,
                    CLOSED_MESSAGE@,
                ),
            },
    {
        match outcome {
            WaitOutcome::Code(c) => Ok(c),
            WaitOutcome::Elapsed => {
                if self.state == ListenerState::Listening {
                    self.state = ListenerState::TimedOut;
                }
                Err(EngineError::new(ErrorKind::Timeout, TIMEOUT_MESSAGE))
            },
            WaitOutcome::Closed => Err(EngineError::new(ErrorKind::State, CLOSED_MESSAGE)),
        }
    }

    /// Shuts the listener down. A listener that has already ended stays as
    /// it ended.
    pub fn shutdown(&mut self)
        ensures
            final(self).port == old(self).port,
            final(self).state == (match old(self).state {
                ListenerState::Listening | ListenerState::Idle => ListenerState::Closed,
                ended => ended,
            }),
    {
        if self.state == ListenerState::Listening || self.state == ListenerState::Idle {
            self.state = ListenerState::Closed;
        }
    }
}

/// A redirect with a code resolves the pending wait with that code and ends
/// the listening; whatever is asked afterwards resolves nothing and changes
/// nothing.
pub proof fn lemma_code_resolves_once(
    query: Seq<char>,
    code: Seq<char>,
    method2: Seq<char>,
    path2: Seq<char>,
    query2: Seq<char>,
)
    requires
        query_param(query, PARAM_CODE@) == Some(code),
    ensures
        delivery(ListenerState::Listening, CALLBACK_METHOD@, CALLBACK_PATH@, query) == Some(code),
        response_body(CALLBACK_METHOD@, CALLBACK_PATH@, query) == SUCCESS_PAGE@,
        after_request(ListenerState::Listening, CALLBACK_METHOD@, CALLBACK_PATH@, query)
            == ListenerState::CodeReceived,
        delivery(ListenerState::CodeReceived, method2, path2, query2) is None,
        after_request(ListenerState::CodeReceived, method2, path2, query2)
            == ListenerState::CodeReceived,
{
}

/// A redirect with an error and no code gets the failure page with the
/// error in it and resolves nothing. It ends a listening listener's
/// session: the listener stops and the pending wait is abandoned.
pub proof fn lemma_error_renders_failure(state: ListenerState, query: Seq<char>, error: Seq<char>)
    requires
        query_param(query, PARAM_CODE@) is None,
        query_param(query, PARAM_ERROR@) == Some(error),
    ensures
        response_status(CALLBACK_METHOD@, CALLBACK_PATH@) == 200,
        response_body(CALLBACK_METHOD@, CALLBACK_PATH@, query) == failure_page(error),
        delivery(state, CALLBACK_METHOD@, CALLBACK_PATH@, query) is None,
        abandons_wait(state, CALLBACK_METHOD@, CALLBACK_PATH@, query) == (state
            == ListenerState::Listening),
        after_request(ListenerState::Listening, CALLBACK_METHOD@, CALLBACK_PATH@, query)
            == ListenerState::Error,
{
}

/// A request that is not a `GET` on the callback path gets 404, resolves
/// nothing and leaves the listener as it was.
pub proof fn lemma_other_request_not_found(
    state: ListenerState,
    method: Seq<char>,
    path: Seq<char>,
    query: Seq<char>,
)
    requires
        !is_callback(method, path),
    ensures
        response_status(method, path) == 404,
        response_body(method, path, query) == NOT_FOUND_BODY@,
        delivery(state, method, path, query) is None,
        after_request(state, method, path, query) == state,
{
}

/// Only a listening listener delivers: in every other state a request
/// resolves nothing and the state stays.
pub proof fn lemma_only_listening_delivers(
    state: ListenerState,
    method: Seq<char>,
    path: Seq<char>,
    query: Seq<char>,
)
    requires
        state != ListenerState::Listening,
    ensures
        delivery(state, method, path, query) is None,
        !abandons_wait(state, method, path, query),
        after_request(state, method, path, query) == state,
{
}

} // verus!
