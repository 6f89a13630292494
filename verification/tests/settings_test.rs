use otpbar::auth::{
    candidate_port, describe_failures, AuthAttempt, AuthEvent, AuthStage, AuthStep, BindFailure,
    LoginGate,
};
use otpbar::config::{get_clipboard_timeout, get_poll_interval, notifications_enabled};
use otpbar::error::{EngineError, ErrorKind};
use otpbar::history::{get_history_path, load_history, save_history, MAX_HISTORY_SIZE};
use otpbar::keychain::KeychainManager;
use otpbar::privacy::{clear_history, get_privacy_data};
use otpbar::text::{
    chars_of, joined, contains, contains_char, find_between, find_char, is_space_char,
    same_chars, same_text, starts_with, string_of, trim_text, trimmed,
};
use otpbar::types::{AuthResult, CodeEntry};

fn entry(i: i64) -> CodeEntry {
    CodeEntry {
        code: format!("{:06}", i),
        sender: "S".to_string(),
        provider: "P".to_string(),
        timestamp: 1_000 + i,
        message_id: format!("m{}", i),
    }
}

fn v(s: &str) -> Vec<char> {
    s.chars().collect()
}

#[test]
fn poll_interval_setting() {
    assert_eq!(get_poll_interval(None), 8000);
    assert_eq!(get_poll_interval(Some("2500")), 2500);
    assert_eq!(get_poll_interval(Some("0")), 0);
    assert_eq!(get_poll_interval(Some("fast")), 8000);
    assert_eq!(get_poll_interval(Some("-1")), 8000);
    assert_eq!(get_poll_interval(Some("")), 8000);
    assert_eq!(get_poll_interval(Some(" 2500")), 8000);
}

#[test]
fn notifications_setting() {
    assert!(notifications_enabled(None));
    assert!(notifications_enabled(Some("true")));
    assert!(!notifications_enabled(Some("false")));
    assert!(notifications_enabled(Some("no")));
    assert!(notifications_enabled(Some("FALSE")));
}

#[test]
fn clipboard_timeout_setting() {
    assert_eq!(get_clipboard_timeout(None), 30);
    assert_eq!(get_clipboard_timeout(Some("90")), 90);
    assert_eq!(get_clipboard_timeout(Some("ninety")), 30);
    assert_eq!(get_clipboard_timeout(Some("18446744073709551616")), 30);
}

#[test]
fn history_is_bounded_on_write() {
    assert_eq!(MAX_HISTORY_SIZE, 50);
    let codes: Vec<CodeEntry> = (0..60).map(entry).collect();
    let written = save_history(&codes);
    assert_eq!(written.len(), 50);
    assert_eq!(written[..], codes[..50]);
    let few: Vec<CodeEntry> = (0..3).map(entry).collect();
    assert_eq!(save_history(&few), few);
    assert!(save_history(&Vec::new()).is_empty());
    let exact: Vec<CodeEntry> = (0..50).map(entry).collect();
    assert_eq!(save_history(&exact), exact);
}

#[test]
fn history_degrades_to_empty() {
    assert!(load_history(None).is_empty());
    let codes: Vec<CodeEntry> = (0..3).map(entry).collect();
    assert_eq!(load_history(Some(codes.clone())), codes);
}

#[test]
fn history_path_components() {
    assert_eq!(
        get_history_path(Some("/cfg".to_string())).unwrap(),
        vec!["/cfg".to_string(), "otpbar".to_string(), "code_history.json".to_string()]
    );
    let err = get_history_path(None).unwrap_err();
    assert_eq!(err, EngineError::new(ErrorKind::State, "Failed to get config directory"));
}

#[test]
fn privacy_summary() {
    let mut k = KeychainManager::new();
    k.set_access_token("a");
    let codes: Vec<CodeEntry> = vec![entry(7), entry(3)];
    let data = get_privacy_data("/cfg/otpbar".to_string(), "/cfg/otpbar/code_history.json".to_string(), &k, &codes).unwrap();
    assert_eq!(data.data_locations.config_path, "/cfg/otpbar");
    assert_eq!(data.data_locations.history_path, "/cfg/otpbar/code_history.json");
    assert_eq!(
        data.data_locations.keychain_items,
        vec!["gmail-access-token", "gmail-refresh-token", "gmail-token-expiry"]
    );
    assert_eq!(
        data.permissions.scopes,
        vec!["https://www.googleapis.com/auth/gmail.readonly"]
    );
    assert!(data.permissions.has_access_token);
    assert!(!data.permissions.has_refresh_token);
    assert_eq!(data.activity.total_codes, 2);
    assert_eq!(data.activity.last_activity, Some(1_007));
    assert_eq!(data.activity.history_retention, 0);
    assert_eq!(data.retention.max_history_size, 50);
    assert_eq!(data.retention.current_size, 2);

    let empty = get_privacy_data(String::new(), String::new(), &KeychainManager::new(), &Vec::new()).unwrap();
    assert_eq!(empty.activity.last_activity, None);
    assert_eq!(empty.activity.total_codes, 0);
}

#[test]
fn clear_history_writes_nothing() {
    assert_eq!(clear_history(), Ok(Vec::new()));
}

#[test]
fn candidate_ports_in_order() {
    let ports: Vec<Option<u16>> = (0..9).map(candidate_port).collect();
    assert_eq!(
        ports,
        vec![Some(8234), Some(8235), Some(8236), Some(8237), Some(8238), Some(8239), Some(8240), None, None]
    );
}

#[test]
fn login_binds_first_free_port() {
    let (mut attempt, step) = AuthAttempt::begin("https://auth.example/".to_string());
    assert_eq!(step, AuthStep::Bind(8234));
    assert_eq!(attempt.advance(AuthEvent::BindFailed("in use".to_string())), AuthStep::Bind(8235));
    assert_eq!(attempt.advance(AuthEvent::BindFailed("denied".to_string())), AuthStep::Bind(8236));
    assert_eq!(
        attempt.advance(AuthEvent::Bound),
        AuthStep::OpenUrl("https://auth.example/".to_string())
    );
    assert_eq!(attempt.advance(AuthEvent::UrlOpened), AuthStep::AwaitCode);
    assert_eq!(
        attempt.advance(AuthEvent::CodeReceived("the-code".to_string())),
        AuthStep::Exchange("the-code".to_string())
    );
    assert_eq!(
        attempt.advance(AuthEvent::Exchanged),
        AuthStep::Finish(Ok(AuthResult { success: true, error: None }))
    );
    assert_eq!(attempt.stage, AuthStage::Finished);
}

#[test]
fn login_fails_when_every_port_fails() {
    let (mut attempt, mut step) = AuthAttempt::begin("u".to_string());
    for port in 8234..=8240u16 {
        assert_eq!(step, AuthStep::Bind(port));
        step = attempt.advance(AuthEvent::BindFailed(format!("busy {}", port)));
    }
    let expected = "Failed to start OAuth server on any port: port 8234: busy 8234; port 8235: busy 8235; port 8236: busy 8236; port 8237: busy 8237; port 8238: busy 8238; port 8239: busy 8239; port 8240: busy 8240";
    assert_eq!(
        step,
        AuthStep::Finish(Err(EngineError::new(ErrorKind::Transport, expected)))
    );
    assert_eq!(attempt.stage, AuthStage::Finished);
    assert_eq!(attempt.failures.len(), 7);
}

#[test]
fn login_failures_end_the_attempt() {
    let (mut attempt, _) = AuthAttempt::begin("u".to_string());
    attempt.advance(AuthEvent::Bound);
    assert_eq!(
        attempt.advance(AuthEvent::UrlFailed("no browser".to_string())),
        AuthStep::Finish(Err(EngineError::new(ErrorKind::Transport, "no browser")))
    );

    let (mut attempt, _) = AuthAttempt::begin("u".to_string());
    attempt.advance(AuthEvent::Bound);
    attempt.advance(AuthEvent::UrlOpened);
    let timeout = EngineError::new(ErrorKind::Timeout, "Timeout waiting for authorization");
    assert_eq!(
        attempt.advance(AuthEvent::WaitFailed(timeout.clone())),
        AuthStep::Finish(Err(timeout))
    );

    let (mut attempt, _) = AuthAttempt::begin("u".to_string());
    attempt.advance(AuthEvent::Bound);
    attempt.advance(AuthEvent::UrlOpened);
    attempt.advance(AuthEvent::CodeReceived("c".to_string()));
    let denied = EngineError::new(ErrorKind::Auth, "No refresh token received");
    assert_eq!(
        attempt.advance(AuthEvent::ExchangeFailed(denied.clone())),
        AuthStep::Finish(Err(denied))
    );
    assert_eq!(attempt.stage, AuthStage::Finished);
}

#[test]
fn login_rejects_reports_out_of_turn() {
    let (mut attempt, _) = AuthAttempt::begin("u".to_string());
    let step = attempt.advance(AuthEvent::CodeReceived("secret-code".to_string()));
    let expected = EngineError::new(ErrorKind::State, "Unexpected event for this step of the login");
    assert_eq!(step, AuthStep::Finish(Err(expected.clone())));
    assert_eq!(attempt.stage, AuthStage::Finished);
    assert_eq!(attempt.advance(AuthEvent::Bound), AuthStep::Finish(Err(expected)));
}

#[test]
fn describe_failures_cases() {
    assert_eq!(describe_failures(&vec![]), "Failed to start OAuth server on any port: ");
    assert_eq!(
        describe_failures(&vec![BindFailure { port: 80, cause: "x".to_string() }]),
        "Failed to start OAuth server on any port: port 80: x"
    );
}

#[test]
fn text_helpers() {
    assert_eq!(chars_of("héllo"), v("héllo"));
    assert_eq!(string_of(&v("héllo")), "héllo");
    assert!(starts_with(&v("github.com"), &v("github")));
    assert!(!starts_with(&v("mygithub.com"), &v("github")));
    assert!(starts_with(&v("abc"), &v("")));
    assert!(!starts_with(&v("ab"), &v("abc")));
    assert!(contains(&v("mail.github.com"), &v(".github")));
    assert!(contains(&v("abc"), &v("c")));
    assert!(contains(&v("abc"), &v("abc")));
    assert!(contains(&v("abc"), &v("")));
    assert!(contains(&v(""), &v("")));
    assert!(!contains(&v("abc"), &v("abcd")));
    assert!(!contains(&v("abc"), &v("ca")));
    assert!(contains_char(&v("x.com"), '.'));
    assert!(!contains_char(&v("github"), '.'));
    assert_eq!(find_char(&v("a@b@c"), '@'), Some(1));
    assert_eq!(find_char(&v("abc"), '@'), None);
    assert_eq!(find_between(&v("a&b&c"), '&', 2, 5), 3);
    assert_eq!(find_between(&v("a&b&c"), '&', 4, 5), 5);
    assert_eq!(joined(&v("ab"), &v("cd")), v("abcd"));
    assert!(same_chars(&v("ab"), &v("ab")));
    assert!(!same_chars(&v("ab"), &v("abc")));
    assert!(!same_chars(&v("ab"), &v("ac")));
    assert!(same_text("ab", "ab"));
    assert!(!same_text("ab", "aB"));
}

#[test]
fn trimming_matches_std() {
    for s in ["", " ", "  a  ", "a", "\t\n a b \r\n", "\u{a0}x\u{3000}", "\u{2003}\u{85}y", "a \u{200b}", "   "] {
        assert_eq!(string_of(&trimmed(&v(s))), s.trim(), "{:?}", s);
        assert_eq!(trim_text(s), s.trim(), "{:?}", s);
    }
    for n in 0..0x3100u32 {
        if let Some(c) = char::from_u32(n) {
            assert_eq!(is_space_char(c), c.is_whitespace(), "{:x}", n);
        }
    }
}

#[test]
fn second_login_is_turned_away() {
    let mut gate = LoginGate::new();
    assert_eq!(gate.try_begin(), Ok(()));
    let err = gate.try_begin().unwrap_err();
    assert_eq!(err.kind, ErrorKind::State);
    assert_eq!(err.message, "A login attempt is already in progress");
    assert!(gate.active);
    gate.finish();
    assert_eq!(gate.try_begin(), Ok(()));
}
