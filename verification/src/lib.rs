//! An engine that finds one-time passcodes in incoming mail.
//!
//! The library holds the decisions: how the sign-in proceeds, when a token
//! is refreshed, how a message is decoded, what counts as a passcode, which
//! codes are new, what is copied and announced. It does no I/O. The caller
//! talks to the network, the secret store, the clipboard and the disk, and
//! hands the library what came back.

use vstd::prelude::*;

pub mod auth;
pub mod codec;
pub mod config;
pub mod decimal;
pub mod engine;
pub mod error;
pub mod gmail;
pub mod history;
pub mod keychain;
pub mod oauth_server;
pub mod otp;
pub mod pattern;
pub mod preferences;
pub mod privacy;
pub mod text;
pub mod types;

pub use oauth_server::OAuthServer;
