use otpbar::engine::{
    build_searchable_text, ClipboardWrite, CodeBook, Notification, SessionState,
    DEFAULT_POLL_INTERVAL_MS, MAX_RECENT_CODES, NOTIFICATION_COOLDOWN_MS,
};
use otpbar::gmail::EmailMessage;
use otpbar::types::{CodeEntry, PrivacyPreferences};

fn entry(id: &str, code: &str) -> CodeEntry {
    CodeEntry {
        code: code.to_string(),
        sender: "Sender".to_string(),
        provider: "Provider".to_string(),
        timestamp: 1,
        message_id: id.to_string(),
    }
}

fn message(id: &str, from: &str, subject: &str) -> EmailMessage {
    EmailMessage {
        id: id.to_string(),
        from: from.to_string(),
        subject: subject.to_string(),
        snippet: "snippet".to_string(),
        body: "body".to_string(),
    }
}

fn fresh_state() -> SessionState {
    SessionState::new(Vec::new(), PrivacyPreferences::default(), 30)
}

#[test]
fn constants_have_documented_values() {
    assert_eq!(MAX_RECENT_CODES, 10);
    assert_eq!(NOTIFICATION_COOLDOWN_MS, 3000);
    assert_eq!(DEFAULT_POLL_INTERVAL_MS, 8000);
}

#[test]
fn same_key_twice_gives_one_entry() {
    let mut book = CodeBook::new();
    assert!(book.record(entry("m1", "123456")));
    assert!(!book.record(entry("m1", "123456")));
    assert_eq!(book.len(), 1);
    assert!(book.knows(&"m1".to_string(), &"123456".to_string()));
    // Same code from another message, same message with another code: new keys.
    assert!(book.record(entry("m2", "123456")));
    assert!(book.record(entry("m1", "654321")));
    assert_eq!(book.len(), 3);
    let codes = book.codes();
    assert_eq!(codes[0], entry("m1", "654321"));
    assert_eq!(codes[1], entry("m2", "123456"));
    assert_eq!(codes[2], entry("m1", "123456"));
}

#[test]
fn list_never_exceeds_bound_and_eviction_forgets_key() {
    let mut book = CodeBook::new();
    for i in 0..10 {
        assert!(book.record(entry(&format!("m{}", i), "111111")));
    }
    assert_eq!(book.len(), 10);
    assert!(book.knows(&"m0".to_string(), &"111111".to_string()));
    assert!(book.record(entry("m10", "111111")));
    assert_eq!(book.len(), 10);
    // The oldest left, and its key with it.
    assert!(!book.knows(&"m0".to_string(), &"111111".to_string()));
    assert!(book.knows(&"m1".to_string(), &"111111".to_string()));
    let codes = book.codes();
    assert_eq!(codes[0].message_id, "m10");
    assert_eq!(codes[9].message_id, "m1");
    // The evicted message can be surfaced again.
    assert!(book.record(entry("m0", "111111")));
    assert_eq!(book.len(), 10);
    assert_eq!(book.codes()[0].message_id, "m0");
    assert!(!book.knows(&"m1".to_string(), &"111111".to_string()));
    for _ in 0..30 {
        book.record(entry("again", "222222"));
        assert!(book.len() <= 10);
    }
}

#[test]
fn with_history_keeps_ten_newest_without_duplicates() {
    let mut history = Vec::new();
    for i in 0..15 {
        history.push(entry(&format!("m{}", i), "111111"));
    }
    let book = CodeBook::with_history(history);
    assert_eq!(book.len(), 10);
    let codes = book.codes();
    assert_eq!(codes[0].message_id, "m0");
    assert_eq!(codes[9].message_id, "m9");
    assert!(book.knows(&"m0".to_string(), &"111111".to_string()));
    assert!(!book.knows(&"m12".to_string(), &"111111".to_string()));

    let book = CodeBook::with_history(vec![entry("a", "1"), entry("b", "2"), entry("a", "1")]);
    assert_eq!(book.len(), 2);
    assert_eq!(book.codes()[0].message_id, "b");
    assert_eq!(book.codes()[1].message_id, "a");
}

#[test]
fn clear_keeps_surfaced_keys() {
    let mut book = CodeBook::new();
    book.record(entry("m1", "123456"));
    book.clear();
    assert_eq!(book.len(), 0);
    assert!(!book.record(entry("m1", "123456")));
    assert_eq!(book.len(), 0);
}

#[test]
fn searchable_text_joins_with_spaces() {
    let msg = message("id", "from", "Subject");
    assert_eq!(build_searchable_text(&msg), "Subject snippet body");
}

#[test]
fn polling_starts_once() {
    let mut state = fresh_state();
    assert!(!state.is_polling);
    assert!(state.try_start_polling());
    assert!(state.is_polling);
    assert!(!state.try_start_polling());
    assert!(state.is_polling);
}

#[test]
fn notification_cooldown() {
    let mut state = fresh_state();
    state.last_notification = 10_000;
    assert!(!state.notification_due(true, 12_999));
    assert!(state.notification_due(true, 13_000));
    assert!(state.notification_due(true, 20_000));
    assert!(!state.notification_due(false, 20_000));
    // A clock that went back counts as no time passed.
    assert!(!state.notification_due(true, 5));
    assert!(!state.notification_due(true, -5));
    state.last_notification = 0;
    assert!(!state.notification_due(true, 2_999));
    assert!(state.notification_due(true, 3_000));
    assert!(!state.notification_due(true, -1));
}

#[test]
fn snapshot_holds_preferences_and_timeout() {
    let state = fresh_state();
    let snap = state.snapshot();
    assert_eq!(snap.clipboard_timeout_seconds, 30);
    assert!(snap.preferences.auto_copy_enabled);
    assert_eq!(snap.preferences.provider_auto_copy.get("default"), Some(true));
}

#[test]
fn two_codes_in_one_cycle_give_one_notification() {
    let mut state = fresh_state();
    state.last_notification = 1_000;
    let snap = state.snapshot();
    let first = state
        .surface("m1".into(), "111111".into(), "S".into(), "P".into(), &snap, true, 10_000)
        .unwrap();
    assert!(first.notification.is_some());
    assert_eq!(state.last_notification, 10_000);
    // The second code comes 500 ms later, inside the cooldown opened by the first.
    let second = state
        .surface("m2".into(), "222222".into(), "S".into(), "P".into(), &snap, true, 10_500)
        .unwrap();
    assert_eq!(second.notification, None);
    assert_eq!(state.last_notification, 10_000);
    let third = state
        .surface("m3".into(), "333333".into(), "S".into(), "P".into(), &snap, true, 12_999)
        .unwrap();
    assert_eq!(third.notification, None);
    // Both are recorded all the same.
    assert_eq!(state.get_codes().len(), 3);
    // Once 3000 ms have passed since the first, the next one is announced.
    let fourth = state
        .surface("m4".into(), "444444".into(), "S".into(), "P".into(), &snap, true, 13_000)
        .unwrap();
    assert!(fourth.notification.is_some());
    assert_eq!(state.last_notification, 13_000);
}

#[test]
fn two_messages_in_one_cycle_give_one_notification() {
    let mut state = fresh_state();
    let snap = state.snapshot();
    let a = message("m1", "GitHub <noreply@github.com>", "Your code is 123456");
    let b = message("m2", "Google <no-reply@google.com>", "Your code is 654321");
    let first = state.process_message(&a, &snap, true, 50_000).unwrap();
    let second = state.process_message(&b, &snap, true, 50_010).unwrap();
    assert!(first.notification.is_some());
    assert_eq!(second.notification, None);
    assert_eq!(second.entry.code, "654321");
    assert_eq!(state.get_codes().len(), 2);
    assert_eq!(state.last_notification, 50_000);
}

#[test]
fn process_message_surfaces_new_code() {
    let mut state = fresh_state();
    let snap = state.snapshot();
    let msg = message("m1", "GitHub <noreply@github.com>", "Your code is 123456");
    let surfaced = state
        .process_message(&msg, &snap, true, 5_000)
        .expect("a new code is surfaced");
    assert_eq!(
        surfaced.entry,
        CodeEntry {
            code: "123456".to_string(),
            sender: "GitHub".to_string(),
            provider: "GitHub".to_string(),
            timestamp: 5_000,
            message_id: "m1".to_string(),
        }
    );
    assert_eq!(
        surfaced.copy,
        Some(ClipboardWrite { text: "123456".to_string(), clear_after_seconds: 30 })
    );
    assert_eq!(
        surfaced.notification,
        Some(Notification { title: "OTP Copied".to_string(), body: "Code from GitHub".to_string() })
    );
    assert!(!surfaced.notification.unwrap().body.contains("123456"));
    assert_eq!(state.last_notification, 5_000);
    assert_eq!(state.get_codes(), vec![surfaced.entry]);

    // The same message in the next cycle: nothing happens.
    let snap = state.snapshot();
    assert_eq!(state.process_message(&msg, &snap, true, 13_000), None);
    assert_eq!(state.get_codes().len(), 1);
    assert_eq!(state.last_notification, 5_000);
}

#[test]
fn process_message_without_code() {
    let mut state = fresh_state();
    let snap = state.snapshot();
    let msg = message("m1", "a@b.c", "Hello world");
    assert_eq!(state.process_message(&msg, &snap, true, 5_000), None);
    assert!(state.get_codes().is_empty());
    assert_eq!(state.last_notification, 0);
}

#[test]
fn notification_respects_cooldown_and_switch() {
    let mut state = fresh_state();
    state.last_notification = 4_000;
    let snap = state.snapshot();
    let s = state
        .surface("m1".into(), "111111".into(), "S".into(), "P".into(), &snap, true, 5_000)
        .unwrap();
    assert_eq!(s.notification, None);
    assert_eq!(state.last_notification, 4_000);

    let s = state
        .surface("m2".into(), "111111".into(), "S".into(), "P".into(), &snap, false, 8_000)
        .unwrap();
    assert_eq!(s.notification, None);
    assert_eq!(state.last_notification, 4_000);

    let s = state
        .surface("m3".into(), "111111".into(), "S".into(), "P".into(), &snap, true, 8_000)
        .unwrap();
    assert_eq!(s.notification.unwrap().body, "Code from S");
    assert_eq!(state.last_notification, 8_000);

    // A clock before the epoch counts as the epoch: no time has passed.
    let s = state
        .surface("m4".into(), "111111".into(), "S".into(), "P".into(), &snap, true, -5)
        .unwrap();
    assert_eq!(s.entry.timestamp, -5);
    assert_eq!(s.notification, None);
    assert_eq!(state.last_notification, 8_000);
}

#[test]
fn auto_copy_follows_preferences() {
    let mut state = fresh_state();
    state
        .privacy_preferences
        .set_provider_auto_copy("GitHub".to_string(), false);
    let snap = state.snapshot();
    let s = state
        .surface("m1".into(), "111111".into(), "S".into(), "GitHub".into(), &snap, true, 1)
        .unwrap();
    assert_eq!(s.copy, None);
    let s = state
        .surface("m2".into(), "222222".into(), "S".into(), "Google".into(), &snap, true, 1)
        .unwrap();
    assert_eq!(s.copy.unwrap().text, "222222");

    state.privacy_preferences.set_auto_copy_enabled(false);
    state
        .privacy_preferences
        .set_provider_auto_copy("Google".to_string(), true);
    let snap = state.snapshot();
    let s = state
        .surface("m3".into(), "333333".into(), "S".into(), "Google".into(), &snap, true, 1)
        .unwrap();
    assert_eq!(s.copy, None);
}

#[test]
fn snapshot_is_not_affected_by_later_changes() {
    let mut state = fresh_state();
    let snap = state.snapshot();
    state.privacy_preferences.set_auto_copy_enabled(false);
    state.set_clipboard_timeout(5);
    let s = state
        .surface("m1".into(), "111111".into(), "S".into(), "P".into(), &snap, true, 1)
        .unwrap();
    assert_eq!(
        s.copy,
        Some(ClipboardWrite { text: "111111".to_string(), clear_after_seconds: 30 })
    );
    assert_eq!(state.get_clipboard_config().timeout_seconds, 5);
}

#[test]
fn session_clear_history() {
    let mut state = SessionState::new(
        vec![entry("m1", "111111"), entry("m2", "222222")],
        PrivacyPreferences::default(),
        45,
    );
    assert_eq!(state.get_codes().len(), 2);
    assert_eq!(state.get_codes()[0].message_id, "m1");
    assert_eq!(state.get_clipboard_config().timeout_seconds, 45);
    state.clear_history();
    assert!(state.get_codes().is_empty());
}
