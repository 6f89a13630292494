//! The summary of what the application keeps and where.

use crate::error::EngineError;
use crate::gmail::GMAIL_SCOPE;
use crate::history::{save_history, strings_view, MAX_HISTORY_SIZE};
use crate::keychain::{KeychainManager, ACCESS_TOKEN_ITEM, REFRESH_TOKEN_ITEM, TOKEN_EXPIRY_ITEM};
use crate::types::CodeEntry;
use vstd::prelude::*;

verus! {

/// Where the data lives.
#[derive(Debug, PartialEq, Eq)]
pub struct DataLocations {
    pub config_path: String,
    pub history_path: String,
    pub keychain_items: Vec<String>,
}

/// What the application may do and what it holds to do it.
#[derive(Debug, PartialEq, Eq)]
pub struct Permissions {
    pub scopes: Vec<String>,
    pub has_access_token: bool,
    pub has_refresh_token: bool,
}

/// What was recorded.
#[derive(Debug, PartialEq, Eq)]
pub struct Activity {
    pub total_codes: usize,
    pub last_activity: Option<i64>,
    /// Days for which history is kept; 0 means without limit of time.
    pub history_retention: u32,
}

/// How much is kept.
#[derive(Debug, PartialEq, Eq)]
pub struct Retention {
    pub max_history_size: usize,
    pub current_size: usize,
}

/// The summary shown to the user.
#[derive(Debug, PartialEq, Eq)]
pub struct PrivacyData {
    pub data_locations: DataLocations,
    pub permissions: Permissions,
    pub activity: Activity,
    pub retention: Retention,
}

/// The timestamp of the newest of the saved codes.
pub open spec fn last_activity_of(history: Seq<CodeEntry>) -> Option<i64> {
    if history.len() > 0 {
        Some(history[0].timestamp)
    } else {
        None
    }
}

/// Puts the summary together from the two paths, the stored secrets and the
/// saved codes.
pub fn get_privacy_data(
    config_path: String,
    history_path: String,
    keychain: &KeychainManager,
    history: &Vec<CodeEntry>,
) -> (data: Result<PrivacyData, EngineError>)
    ensures
        data is Ok,
        ({
            let d = data->Ok_0;
            &&& d.data_locations.config_path == config_path
            &&& d.data_locations.history_path == history_path
            &&& strings_view(d.data_locations.keychain_items@) == seq![
                ACCESS_TOKEN_ITEM@,
                REFRESH_TOKEN_ITEM@,
                TOKEN_EXPIRY_ITEM@,
            ]
            &&& strings_view(d.permissions.scopes@) == seq![GMAIL_SCOPE@]
            &&& d.permissions.has_access_token == (keychain.access_token is Some)
            &&& d.permissions.has_refresh_token == (keychain.refresh_token is Some)
            &&& d.activity.total_codes == history@.len()
            &&& d.activity.last_activity == last_activity_of(history@)
            &&& d.activity.history_retention == 0
            &&& d.retention.max_history_size == MAX_HISTORY_SIZE
            &&& d.retention.current_size == history@.len()
        }),
{
    let mut keychain_items: Vec<String> = Vec::new();
    keychain_items.push(ACCESS_TOKEN_ITEM.to_owned());
    keychain_items.push(REFRESH_TOKEN_ITEM.to_owned());
    keychain_items.push(TOKEN_EXPIRY_ITEM.to_owned());
    assert(strings_view(keychain_items@) =~= seq![
        ACCESS_TOKEN_ITEM@,
        REFRESH_TOKEN_ITEM@,
        TOKEN_EXPIRY_ITEM@,
    ]);
    let mut scopes: Vec<String> = Vec::new();
    scopes.push(GMAIL_SCOPE.to_owned());
    assert(strings_view(scopes@) =~= seq![GMAIL_SCOPE@]);
    let last_activity = if history.len() > 0 {
        Some(history[0].timestamp)
    } else {
        None
    };
    Ok(
        PrivacyData {
            data_locations: DataLocations { config_path, history_path, keychain_items },
            permissions: Permissions {
                scopes,
                has_access_token: keychain.access_token.is_some(),
                has_refresh_token: keychain.refresh_token.is_some(),
            },
            activity: Activity {
                total_codes: history.len(),
                last_activity,
                history_retention: 0,
            },
            retention: Retention {
                max_history_size: MAX_HISTORY_SIZE,
                current_size: history.len(),
            },
        },
    )
}

/// Clears the saved history: what is to be written in its place is the
/// empty list.
pub fn clear_history() -> (to_write: Result<Vec<CodeEntry>, EngineError>)
    ensures
        to_write is Ok,
        to_write->Ok_0@ == Seq::<CodeEntry>::empty(),
{
    let none: Vec<CodeEntry> = Vec::new();
    Ok(save_history(&none))
}

} // verus!
