use otpbar::preferences::{get_preferences_path, load_preferences};
use otpbar::types::{ClipboardConfig, PrivacyPreferences, ProviderOverrides};

#[test]
fn default_preferences() {
    let prefs = PrivacyPreferences::default();
    assert!(prefs.auto_copy_enabled);
    assert_eq!(prefs.provider_auto_copy.get("default"), Some(true));
    assert_eq!(prefs.provider_auto_copy.entries(), vec![("default".to_string(), true)]);
    assert_eq!(ClipboardConfig::default().timeout_seconds, 30);
}

#[test]
fn provider_override_beats_default_override() {
    let mut prefs = PrivacyPreferences::default();
    prefs.set_provider_auto_copy("default".to_string(), false);
    prefs.set_provider_auto_copy("GitHub".to_string(), true);
    assert!(prefs.should_auto_copy("GitHub"));
    assert!(!prefs.should_auto_copy("Google"));

    let mut prefs = PrivacyPreferences::default();
    prefs.set_provider_auto_copy("GitHub".to_string(), false);
    assert!(!prefs.should_auto_copy("GitHub"));
    assert!(prefs.should_auto_copy("Google"));
}

#[test]
fn implicit_true_without_any_override() {
    let prefs = PrivacyPreferences {
        auto_copy_enabled: true,
        provider_auto_copy: ProviderOverrides::new(),
    };
    assert!(prefs.should_auto_copy("GitHub"));
    assert!(prefs.should_auto_copy(""));
}

#[test]
fn global_flag_off_beats_everything() {
    let mut prefs = PrivacyPreferences::default();
    prefs.set_provider_auto_copy("GitHub".to_string(), true);
    prefs.set_auto_copy_enabled(false);
    assert!(!prefs.should_auto_copy("GitHub"));
    assert!(!prefs.should_auto_copy("Google"));
}

#[test]
fn overrides_behave_as_a_map() {
    let mut o = ProviderOverrides::new();
    assert_eq!(o.get("a"), None);
    o.insert("a".to_string(), true);
    o.insert("b".to_string(), false);
    o.insert("a".to_string(), false);
    assert_eq!(o.get("a"), Some(false));
    assert_eq!(o.get("b"), Some(false));
    assert_eq!(o.get("c"), None);
    assert_eq!(
        o.entries(),
        vec![("a".to_string(), false), ("b".to_string(), false)]
    );
    let copy = o.clone();
    assert_eq!(copy.get("a"), Some(false));
}

#[test]
fn load_preferences_defaults_on_missing() {
    let prefs = load_preferences(None);
    assert!(prefs.auto_copy_enabled);
    assert_eq!(prefs.provider_auto_copy.get("default"), Some(true));

    let mut stored = PrivacyPreferences::default();
    stored.set_auto_copy_enabled(false);
    stored.set_provider_auto_copy("GitHub".to_string(), true);
    let prefs = load_preferences(Some(stored));
    assert!(!prefs.auto_copy_enabled);
    assert_eq!(prefs.provider_auto_copy.get("GitHub"), Some(true));
}

#[test]
fn preferences_path_components() {
    assert_eq!(
        get_preferences_path(Some("/home/u/.config".to_string())).unwrap(),
        vec!["/home/u/.config".to_string(), "otpbar".to_string(), "preferences.json".to_string()]
    );
    let err = get_preferences_path(None).unwrap_err();
    assert_eq!(err.message, "Failed to get config directory");
}
