//! The configuration, and what loading and saving it come to.
//!
//! The file itself is read, parsed, encoded and written by the caller; the
//! functions here decide what each outcome means.

use crate::errors::MagatsumiError;
use vstd::prelude::*;

verus! {

/// The configuration. It has no settings yet.
#[derive(Debug)]
pub struct Config {}

/// What reading and parsing a configuration file came to.
pub enum Loaded {
    /// The file could not be read.
    Missing,
    /// The file was read, and the parser rejected its contents.
    Malformed(serde_json::Error),
    /// The file was read and parsed.
    Parsed(Config),
}

/// What encoding and writing a configuration came to.
pub enum Stored {
    /// The configuration could not be encoded, for the reason given.
    EncodeFailed(String),
    /// The file could not be written, for the reason given.
    WriteFailed(String),
    /// The file was written.
    Written,
}

impl Config {
    /// The result of opening the configuration at `path`, given what
    /// loading it came to: a file that cannot be read is not found, one
    /// that does not parse is invalid, and the error carries the parser's.
    pub fn open(path: String, loaded: Loaded) -> (opened: Result<Config, MagatsumiError>)
        ensures
            opened == match loaded {
                Loaded::Missing => Err::<Config, MagatsumiError>(
                    MagatsumiError::ConfigNotFound(path),
                ),
                Loaded::Malformed(source) => Err(MagatsumiError::ConfigInvalid { path, source }),
                Loaded::Parsed(config) => Ok(config),
            },
    {
        match loaded {
            Loaded::Missing => Err(MagatsumiError::ConfigNotFound(path)),
            Loaded::Malformed(source) => Err(MagatsumiError::ConfigInvalid { path, source }),
            Loaded::Parsed(config) => Ok(config),
        }
    }

    /// The result of saving the configuration to `path`, given what
    /// storing it came to: either failure is a save failure that carries
    /// the reason.
    pub fn save(&self, path: String, stored: Stored) -> (saved: Result<(), MagatsumiError>)
        ensures
            saved == match stored {
                Stored::EncodeFailed(reason) => Err::<(), MagatsumiError>(
                    MagatsumiError::ConfigSaveFailed { path, reason },
                ),
                Stored::WriteFailed(reason) => Err(
                    MagatsumiError::ConfigSaveFailed { path, reason },
                ),
                Stored::Written => Ok(()),
            },
    {
        match stored {
            Stored::EncodeFailed(reason) => Err(MagatsumiError::ConfigSaveFailed { path, reason }),
            Stored::WriteFailed(reason) => Err(MagatsumiError::ConfigSaveFailed { path, reason }),
            Stored::Written => Ok(()),
        }
    }
}

} // verus!
