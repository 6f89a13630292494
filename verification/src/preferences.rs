//! The saved preferences: where they live and what they default to.

use crate::error::{EngineError, ErrorKind};
use crate::history::{app_file_path, strings_view, APP_DIRECTORY, NO_CONFIG_DIR_MESSAGE};
use crate::types::{PrivacyPreferences, DEFAULT_PROVIDER_KEY};
use vstd::prelude::*;

verus! {

/// The file that holds the preferences.
pub const PREFERENCES_FILE: &'static str = "preferences.json";

/// The path of the preferences file, as its components.
pub fn get_preferences_path(config_dir: Option<String>) -> (path: Result<Vec<String>, EngineError>)
    ensures
        match config_dir {
            Some(dir) => path is Ok && strings_view(path->Ok_0@) == seq![
                dir@,
                APP_DIRECTORY@,
                PREFERENCES_FILE@,
            ],
            None => path is Err && path->Err_0.carries(ErrorKind::State, NO_CONFIG_DIR_MESSAGE@),
        },
{
    app_file_path(config_dir, PREFERENCES_FILE)
}

/// The preferences to start with, given what reading the preferences file
/// gave: what it held, or the defaults when the file is missing or cannot
/// be read.
pub fn load_preferences(parsed: Option<PrivacyPreferences>) -> (prefs: PrivacyPreferences)
    ensures
        match parsed {
            Some(p) => prefs == p,
            None => prefs.auto_copy_enabled && prefs.provider_auto_copy@ == Map::<
                Seq<char>,
                bool,
            >::empty().insert(DEFAULT_PROVIDER_KEY@, true),
        },
{
    match parsed {
        Some(p) => p,
        None => PrivacyPreferences::default(),
    }
}

} // verus!
