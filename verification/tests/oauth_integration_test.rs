use otpbar::error::ErrorKind;
use otpbar::oauth_server::{
    error_html, query_value, success_html, ListenerState, OAuthServer, WaitOutcome,
    WAIT_TIMEOUT_SECONDS,
};

#[test]
fn oauth_server_starts_and_binds() {
    let mut server = OAuthServer::start(8234, Ok(())).expect("Server should start on available port");
    assert_eq!(server.port, 8234);
    assert_eq!(server.state, ListenerState::Listening);
    assert!(server.is_listening());
    server.shutdown();
    assert_eq!(server.state, ListenerState::Closed);
}

#[test]
fn oauth_server_reports_bind_failure() {
    let err = OAuthServer::start(8234, Err("Address already in use".to_string())).unwrap_err();
    assert_eq!(err.kind, ErrorKind::Transport);
    assert_eq!(
        err.message,
        "Failed to bind to port 8234: Address already in use"
    );
}

#[test]
fn oauth_server_handles_callback_success() {
    let mut server = OAuthServer::start(8235, Ok(())).expect("Server should start");
    let resp = server.handle_callback("GET", "/callback", "code=test_auth_code_123");
    assert_eq!(resp.status, 200);
    assert!(resp.html);
    assert!(resp.body.contains("Signed In"));
    assert_eq!(resp.deliver, Some("test_auth_code_123".to_string()));
    assert!(!resp.abandon_wait);
    assert_eq!(server.state, ListenerState::CodeReceived);

    let code = server
        .wait_for_code(WaitOutcome::Code(resp.deliver.unwrap()))
        .expect("Should receive code");
    assert_eq!(code, "test_auth_code_123");
}

#[test]
fn oauth_server_delivers_code_exactly_once() {
    let mut server = OAuthServer::start(8235, Ok(())).expect("Server should start");
    let first = server.handle_callback("GET", "/callback", "code=X");
    assert_eq!(first.deliver, Some("X".to_string()));
    let repeat = server.handle_callback("GET", "/callback", "code=X");
    assert_eq!(repeat.status, 200);
    assert!(repeat.body.contains("Signed In"));
    assert_eq!(repeat.deliver, None);
    let other = server.handle_callback("GET", "/callback", "code=Y");
    assert_eq!(other.deliver, None);
    assert_eq!(server.state, ListenerState::CodeReceived);
}

#[test]
fn oauth_server_handles_callback_error() {
    let mut server = OAuthServer::start(8236, Ok(())).expect("Server should start");
    let resp = server.handle_callback("GET", "/callback", "error=access_denied");
    assert_eq!(resp.status, 200);
    assert!(resp.body.contains("access_denied"));
    assert!(resp.body.contains("Sign In Failed"));
    // No code received
    assert_eq!(resp.deliver, None);
    assert_eq!(server.state, ListenerState::Error);
    assert_eq!(resp.body, error_html("access_denied"));
    // The session is over: the wait is abandoned and ends as a closed channel.
    assert!(resp.abandon_wait);
    let err = server.wait_for_code(WaitOutcome::Closed).unwrap_err();
    assert_eq!(err.kind, ErrorKind::State);
    assert_eq!(err.message, "Channel closed");
    // A second refusal finds no pending wait.
    let again = server.handle_callback("GET", "/callback", "error=access_denied");
    assert!(!again.abandon_wait);
    assert!(again.body.contains("access_denied"));
}

#[test]
fn oauth_server_callback_without_parameters() {
    let mut server = OAuthServer::start(8236, Ok(())).expect("Server should start");
    let resp = server.handle_callback("GET", "/callback", "");
    assert_eq!(resp.status, 200);
    assert!(resp.body.contains("No authorization code received"));
    assert_eq!(resp.deliver, None);
    assert!(!resp.abandon_wait);
    assert_eq!(server.state, ListenerState::Listening);
}

#[test]
fn oauth_server_timeout() {
    let mut server = OAuthServer::start(8237, Ok(())).expect("Server should start");
    assert_eq!(WAIT_TIMEOUT_SECONDS, 300);
    let err = server.wait_for_code(WaitOutcome::Elapsed).unwrap_err();
    assert_eq!(err.kind, ErrorKind::Timeout);
    assert_eq!(err.message, "Timeout waiting for authorization");
    assert_eq!(server.state, ListenerState::TimedOut);
    // Nothing is delivered after the timeout.
    let late = server.handle_callback("GET", "/callback", "code=late");
    assert_eq!(late.deliver, None);
    assert_eq!(server.state, ListenerState::TimedOut);
}

#[test]
fn oauth_server_channel_closed_is_not_a_timeout() {
    let mut server = OAuthServer::start(8237, Ok(())).expect("Server should start");
    let err = server.wait_for_code(WaitOutcome::Closed).unwrap_err();
    assert_eq!(err.kind, ErrorKind::State);
    assert_eq!(err.message, "Channel closed");
    assert_eq!(server.state, ListenerState::Listening);
}

#[test]
fn oauth_server_not_found_path() {
    let mut server = OAuthServer::start(8238, Ok(())).expect("Server should start");
    let resp = server.handle_callback("GET", "/unknown", "");
    assert_eq!(resp.status, 404);
    assert!(!resp.html);
    assert_eq!(resp.body, "Not Found");
    assert_eq!(resp.deliver, None);
    assert!(!resp.abandon_wait);
    assert_eq!(server.state, ListenerState::Listening);
}

#[test]
fn oauth_server_other_method_not_found() {
    let mut server = OAuthServer::start(8238, Ok(())).expect("Server should start");
    let resp = server.handle_callback("POST", "/callback", "code=abc");
    assert_eq!(resp.status, 404);
    assert_eq!(resp.deliver, None);
    assert_eq!(server.state, ListenerState::Listening);
}

#[test]
fn oauth_callback_parse_query_params() {
    let mut server = OAuthServer::start(8239, Ok(())).expect("Server should start");
    // Test with multiple query params
    let resp = server.handle_callback("GET", "/callback", "code=abc123&state=xyz789&scope=email");
    assert_eq!(resp.status, 200);
    assert_eq!(resp.deliver, Some("abc123".to_string()));
}

#[test]
fn query_value_cases() {
    assert_eq!(query_value("code=abc", "code"), Some("abc".to_string()));
    assert_eq!(query_value("a=1&code=abc&b=2", "code"), Some("abc".to_string()));
    assert_eq!(query_value("code=first&code=last", "code"), Some("last".to_string()));
    assert_eq!(query_value("code=a=b", "code"), Some("a=b".to_string()));
    assert_eq!(query_value("code=", "code"), Some("".to_string()));
    assert_eq!(query_value("code", "code"), None);
    assert_eq!(query_value("", "code"), None);
    assert_eq!(query_value("xcode=1", "code"), None);
    assert_eq!(query_value("codex=1", "code"), None);
    assert_eq!(query_value("error=denied&", "error"), Some("denied".to_string()));
    assert_eq!(query_value("=v", ""), Some("v".to_string()));
}

#[test]
fn code_wins_over_error() {
    let mut server = OAuthServer::start(8239, Ok(())).expect("Server should start");
    let resp = server.handle_callback("GET", "/callback", "error=denied&code=abc");
    assert_eq!(resp.deliver, Some("abc".to_string()));
    assert_eq!(resp.body, success_html());
}

#[test]
fn idle_listener_delivers_nothing() {
    let mut server = OAuthServer::new(8240);
    assert_eq!(server.state, ListenerState::Idle);
    assert!(!server.is_listening());
    let resp = server.handle_callback("GET", "/callback", "code=abc");
    assert_eq!(resp.status, 200);
    assert_eq!(resp.deliver, None);
    assert_eq!(server.state, ListenerState::Idle);
    server.shutdown();
    assert_eq!(server.state, ListenerState::Closed);
}

#[test]
fn shutdown_keeps_an_ended_listener_as_it_ended() {
    let mut server = OAuthServer::start(8240, Ok(())).expect("Server should start");
    server.handle_callback("GET", "/callback", "code=abc");
    server.shutdown();
    assert_eq!(server.state, ListenerState::CodeReceived);
}

#[test]
fn pages_have_expected_shape() {
    let ok = success_html();
    assert!(ok.starts_with("\n<!DOCTYPE html>"));
    assert!(ok.contains("<title>Signed In</title>"));
    assert!(ok.ends_with("</html>\n    "));
    let failed = error_html("boom");
    assert!(failed.contains("<title>Sign In Failed</title>"));
    assert!(failed.contains("<p>boom</p>"));
    assert!(failed.contains("* { margin: 0; padding: 0; box-sizing: border-box; }"));
}
