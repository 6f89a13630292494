//! Settings read from the environment, with their defaults.
//!
//! The caller reads the variables; these functions say what their values
//! mean.

use crate::decimal::{parse_bool, parse_bool_spec, parse_u64, parse_u64_spec};
use crate::engine::DEFAULT_POLL_INTERVAL_MS;
use crate::types::DEFAULT_CLIPBOARD_TIMEOUT_SECONDS;
use vstd::prelude::*;

verus! {

/// The variable that holds the client id.
pub const CLIENT_ID_VAR: &'static str = "GOOGLE_CLIENT_ID";

/// The variable that holds the client secret.
pub const CLIENT_SECRET_VAR: &'static str = "GOOGLE_CLIENT_SECRET";

/// The variable that overrides the polling interval, in milliseconds.
pub const POLL_INTERVAL_VAR: &'static str = "OTPBAR_POLL_INTERVAL_MS";

/// The variable that turns notifications on or off.
pub const NOTIFICATIONS_VAR: &'static str = "OTPBAR_NOTIFICATIONS_ENABLED";

/// The variable that overrides the clipboard timeout, in seconds.
pub const CLIPBOARD_TIMEOUT_VAR: &'static str = "OTPBAR_CLIPBOARD_TIMEOUT_SECONDS";

/// The number that a variable gives: what it spells, or `default` when it
/// is not set or spells no `u64`.
pub open spec fn number_or(value: Option<&str>, default: u64) -> u64 {
    match value {
        Some(text) => match parse_u64_spec(text@) {
            Some(n) => n,
            None => default,
        },
        None => default,
    }
}

/// The flag that a variable gives: what it spells, or `default` when it is
/// not set or spells neither `true` nor `false`.
pub open spec fn flag_or(value: Option<&str>, default: bool) -> bool {
    match value {
        Some(text) => match parse_bool_spec(text@) {
            Some(b) => b,
            None => default,
        },
        None => default,
    }
}

/// Reads a number from a variable's value, with its default.
fn read_number(value: Option<&str>, default: u64) -> (n: u64)
    ensures
        n == number_or(value, default),
{
    match value {
        Some(text) => match parse_u64(text) {
            Some(n) => n,
            None => default,
        },
        None => default,
    }
}

/// Milliseconds between two polling cycles: 8000 unless the variable says
/// otherwise.
pub fn get_poll_interval(value: Option<&str>) -> (ms: u64)
    ensures
        ms == number_or(value, DEFAULT_POLL_INTERVAL_MS),
{
    read_number(value, DEFAULT_POLL_INTERVAL_MS)
}

/// Whether notifications are shown: they are unless the variable says
/// `false`.
pub fn notifications_enabled(value: Option<&str>) -> (enabled: bool)
    ensures
        enabled == flag_or(value, true),
{
    match value {
        Some(text) => match parse_bool(text) {
            Some(b) => b,
            None => true,
        },
        None => true,
    }
}

/// Seconds after which a copied code is cleared: 30 unless the variable
/// says otherwise.
pub fn get_clipboard_timeout(value: Option<&str>) -> (seconds: u64)
    ensures
        seconds == number_or(value, DEFAULT_CLIPBOARD_TIMEOUT_SECONDS),
{
    read_number(value, DEFAULT_CLIPBOARD_TIMEOUT_SECONDS)
}

} // verus!
