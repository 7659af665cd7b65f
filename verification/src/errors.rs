//! The errors of loading and saving the configuration.

use crate::bindings::json_error_text;
use vstd::prelude::*;
use vstd::string::StringExecFns;

verus! {

/// Why a configuration could not be loaded or saved.
#[derive(Debug)]
pub enum MagatsumiError {
    /// No file could be read at the path.
    ConfigNotFound(String),
    /// The file at `path` does not hold a configuration.
    ConfigInvalid { path: String, source: serde_json::Error },
    /// The configuration could not be written to `path`.
    ConfigSaveFailed { path: String, reason: String },
}

/// The message of `error`, where `source_text` is the parser's description
/// of its complaint (read only for `ConfigInvalid`).
pub open spec fn message_text(error: MagatsumiError, source_text: Seq<char>) -> Seq<char> {
    match error {
        MagatsumiError::ConfigNotFound(path) => "unable to find config file at "@ + path@,
        MagatsumiError::ConfigInvalid { path, .. } => "unable to parse config file at "@ + path@
            + ": "@ + source_text,
        MagatsumiError::ConfigSaveFailed { path, reason } => "unable to save config file at "@
            + path@ + ": "@ + reason@,
    }
}

impl MagatsumiError {
    /// The path that the error is about.
    pub open spec fn spec_path(&self) -> Seq<char> {
        match self {
            MagatsumiError::ConfigNotFound(path) => path@,
            MagatsumiError::ConfigInvalid { path, .. } => path@,
            MagatsumiError::ConfigSaveFailed { path, .. } => path@,
        }
    }

    /// The path that the error is about.
    pub fn path(&self) -> (path: &str)
        ensures
            path@ == self.spec_path(),
    {
        match self {
            MagatsumiError::ConfigNotFound(path) => path.as_str(),
            MagatsumiError::ConfigInvalid { path, .. } => path.as_str(),
            MagatsumiError::ConfigSaveFailed { path, .. } => path.as_str(),
        }
    }

    /// The message of the error, given the parser's description of its
    /// complaint.
    pub fn message_with(&self, source_text: &str) -> (message: String)
        ensures
            message@ == message_text(*self, source_text@),
    {
        match self {
            MagatsumiError::ConfigNotFound(path) => {
                let mut message = String::from_str("unable to find config file at ");
                message.append(path.as_str());
                message
            },
            MagatsumiError::ConfigInvalid { path, .. } => {
                let mut message = String::from_str("unable to parse config file at ");
                message.append(path.as_str());
                message.append(": ");
                message.append(source_text);
                message
            },
            MagatsumiError::ConfigSaveFailed { path, reason } => {
                let mut message = String::from_str("unable to save config file at ");
                message.append(path.as_str());
                message.append(": ");
                message.append(reason.as_str());
                message
            },
        }
    }

    /// The message of the error. For `ConfigInvalid` it ends with the
    /// parser's own description of its complaint.
    pub fn message(&self) -> (message: String)
        ensures
            !(self is ConfigInvalid) ==> message@ == message_text(*self, Seq::empty()),
            exists|source_text: Seq<char>| message@ == message_text(*self, source_text),
    {
        match self {
            MagatsumiError::ConfigInvalid { source, .. } => {
                let text = json_error_text(source);
                self.message_with(text.as_str())
            },
            _ => {
                let message = self.message_with("");
                proof {
                    reveal_strlit("");
                    assert(""@ =~= Seq::<char>::empty());
                }
                message
            },
        }
    }
}

/// Every message names the path that the error is about, right after a
/// fixed opening.
pub proof fn lemma_message_holds_path(error: MagatsumiError, source_text: Seq<char>)
    ensures
        exists|opening: Seq<char>, rest: Seq<char>|
            message_text(error, source_text) == opening + error.spec_path() + rest,
{
    match error {
        MagatsumiError::ConfigNotFound(path) => {
            let opening = "unable to find config file at "@;
            assert(message_text(error, source_text) =~= opening + error.spec_path()
                + Seq::<char>::empty());
        },
        MagatsumiError::ConfigInvalid { path, .. } => {
            let opening = "unable to parse config file at "@;
            assert(message_text(error, source_text) =~= opening + error.spec_path() + (": "@
                + source_text));
        },
        MagatsumiError::ConfigSaveFailed { path, reason } => {
            let opening = "unable to save config file at "@;
            assert(message_text(error, source_text) =~= opening + error.spec_path() + (": "@
                + reason@));
        },
    }
}

} // verus!
