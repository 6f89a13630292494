//! The stored token record.
//!
//! The secrets live in the operating system's vault, under one service name
//! and three item names. This module holds the record as read from the vault
//! and says how it changes; reading the vault and writing it back is the
//! caller's part.

use crate::decimal::{
    format_i64, lemma_parse_signed_decimal, parse_i64, parse_i64_spec, signed_decimal,
};
use vstd::prelude::*;

verus! {

/// The service under which the secrets are kept.
pub const SERVICE_NAME: &'static str = "otpbar";

/// The item that holds the refresh token.
pub const REFRESH_TOKEN_ITEM: &'static str = "gmail-refresh-token";

/// The item that holds the access token.
pub const ACCESS_TOKEN_ITEM: &'static str = "gmail-access-token";

/// The item that holds the access token's expiry, in seconds since the
/// epoch, as a decimal numeral.
pub const TOKEN_EXPIRY_ITEM: &'static str = "gmail-token-expiry";

/// The three stored secrets. `None` stands for an item that is not there.
#[derive(Debug, PartialEq, Eq)]
pub struct KeychainManager {
    pub refresh_token: Option<String>,
    pub access_token: Option<String>,
    pub token_expiry: Option<String>,
}

impl KeychainManager {
    /// The stored expiry as a number. An item that does not spell an `i64`
    /// counts as absent.
    pub open spec fn expiry(&self) -> Option<i64> {
        match self.token_expiry {
            Some(text) => parse_i64_spec(text@),
            None => None,
        }
    }

    /// A record with nothing stored.
    pub fn new() -> (record: Self)
        ensures
            record.refresh_token is None,
            record.access_token is None,
            record.token_expiry is None,
    {
        KeychainManager { refresh_token: None, access_token: None, token_expiry: None }
    }

    /// The refresh token, if one is stored.
    pub fn get_refresh_token(&self) -> (token: Option<String>)
        ensures
            token == self.refresh_token,
    {
        match &self.refresh_token {
            Some(t) => Some(t.clone()),
            None => None,
        }
    }

    /// Stores the refresh token.
    pub fn set_refresh_token(&mut self, token: &str)
        ensures
            final(self).refresh_token is Some,
            final(self).refresh_token->0@ == token@,
            final(self).access_token == old(self).access_token,
            final(self).token_expiry == old(self).token_expiry,
    {
        self.refresh_token = Some(token.to_owned());
    }

    /// The access token, if one is stored.
    pub fn get_access_token(&self) -> (token: Option<String>)
        ensures
            token == self.access_token,
    {
        match &self.access_token {
            Some(t) => Some(t.clone()),
            None => None,
        }
    }

    /// Stores the access token.
    pub fn set_access_token(&mut self, token: &str)
        ensures
            final(self).access_token is Some,
            final(self).access_token->0@ == token@,
            final(self).refresh_token == old(self).refresh_token,
            final(self).token_expiry == old(self).token_expiry,
    {
        self.access_token = Some(token.to_owned());
    }

    /// The stored expiry, if one is stored and spells a number.
    pub fn get_token_expiry(&self) -> (expiry: Option<i64>)
        ensures
            expiry == self.expiry(),
    {
        match &self.token_expiry {
            Some(text) => parse_i64(text.as_str()),
            None => None,
        }
    }

    /// Stores the expiry as a decimal numeral.
    pub fn set_token_expiry(&mut self, expiry_ts: i64)
        ensures
            final(self).token_expiry is Some,
            final(self).token_expiry->0@ == signed_decimal(expiry_ts as int),
            final(self).expiry() == Some(expiry_ts),
            final(self).refresh_token == old(self).refresh_token,
            final(self).access_token == old(self).access_token,
    {
        proof {
            lemma_parse_signed_decimal(expiry_ts as int);
        }
        self.token_expiry = Some(format_i64(expiry_ts));
    }

    /// Forgets all three secrets.
    pub fn delete_all_credentials(&mut self)
        ensures
            final(self).refresh_token is None,
            final(self).access_token is None,
            final(self).token_expiry is None,
    {
        self.refresh_token = None;
        self.access_token = None;
        self.token_expiry = None;
    }
}

/// An expiry that was stored is read back as it was.
pub proof fn lemma_expiry_round_trip(expiry_ts: i64)
    ensures
        parse_i64_spec(signed_decimal(expiry_ts as int)) == Some(expiry_ts),
{
    lemma_parse_signed_decimal(expiry_ts as int);
}

} // verus!
