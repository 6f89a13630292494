//! The saved list of codes: where it lives and what is written to it.

use crate::error::{EngineError, ErrorKind};
use crate::types::CodeEntry;
use vstd::prelude::*;

verus! {

/// The directory, below the user's configuration directory, that holds the
/// application's files.
pub const APP_DIRECTORY: &'static str = "otpbar";

/// The file that holds the saved codes.
pub const HISTORY_FILE: &'static str = "code_history.json";

/// How many codes are written at most.
pub const MAX_HISTORY_SIZE: usize = 50;

/// The message of the failure when the system names no configuration
/// directory.
pub const NO_CONFIG_DIR_MESSAGE: &'static str = "Failed to get config directory";

/// The views of a run of strings.
pub open spec fn strings_view(strings: Seq<String>) -> Seq<Seq<char>> {
    Seq::new(strings.len(), |i: int| strings[i]@)
}

/// What is written when `codes` is saved: its first 50 entries.
pub open spec fn saved_entries(codes: Seq<CodeEntry>) -> Seq<CodeEntry> {
    if codes.len() <= MAX_HISTORY_SIZE {
        codes
    } else {
        codes.take(MAX_HISTORY_SIZE as int)
    }
}

/// The path of `file` in the application's directory, as its components:
/// the configuration directory, the application's directory, the file. It
/// fails when there is no configuration directory.
pub fn app_file_path(config_dir: Option<String>, file: &str) -> (path: Result<Vec<String>, EngineError>)
    ensures
        match config_dir {
            Some(dir) => path is Ok && strings_view(path->Ok_0@) == seq![
                dir@,
                APP_DIRECTORY@,
                file@,
            ],
            None => path is Err && path->Err_0.carries(ErrorKind::State, NO_CONFIG_DIR_MESSAGE@),
        },
{
    match config_dir {
        Some(dir) => {
            let mut path: Vec<String> = Vec::new();
            path.push(dir);
            path.push(APP_DIRECTORY.to_owned());
            path.push(file.to_owned());
            assert(strings_view(path@) =~= seq![dir@, APP_DIRECTORY@, file@]);
            Ok(path)
        },
        None => Err(EngineError::new(ErrorKind::State, NO_CONFIG_DIR_MESSAGE)),
    }
}

/// The path of the history file, as its components.
pub fn get_history_path(config_dir: Option<String>) -> (path: Result<Vec<String>, EngineError>)
    ensures
        match config_dir {
            Some(dir) => path is Ok && strings_view(path->Ok_0@) == seq![
                dir@,
                APP_DIRECTORY@,
                HISTORY_FILE@,
            ],
            None => path is Err && path->Err_0.carries(ErrorKind::State, NO_CONFIG_DIR_MESSAGE@),
        },
{
    app_file_path(config_dir, HISTORY_FILE)
}

/// The codes to start with, given what reading the history file gave:
/// its entries, or none when the file is missing or cannot be read.
pub fn load_history(parsed: Option<Vec<CodeEntry>>) -> (codes: Vec<CodeEntry>)
    ensures
        codes@ == (match parsed {
            Some(entries) => entries@,
            None => Seq::<CodeEntry>::empty(),
        }),
{
    match parsed {
        Some(entries) => entries,
        None => Vec::new(),
    }
}

/// The entries that are written when `codes` is saved: the first 50.
pub fn save_history(codes: &Vec<CodeEntry>) -> (to_write: Vec<CodeEntry>)
    ensures
        to_write@ == saved_entries(codes@),
        to_write@.len() <= MAX_HISTORY_SIZE,
{
    let n: usize = if codes.len() <= MAX_HISTORY_SIZE {
        codes.len()
    } else {
        MAX_HISTORY_SIZE
    };
    let mut to_write: Vec<CodeEntry> = Vec::new();
    let mut i: usize = 0;
    while i < n
        invariant
            i <= n <= codes.len(),
            to_write@ == codes@.take(i as int),
        decreases n - i,
    {
        to_write.push(codes[i].clone());
        i += 1;
    }
    assert(codes@.take(codes@.len() as int) =~= codes@);
    to_write
}

} // verus!
