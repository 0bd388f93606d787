//! Error classification for the deployment flow.
//!
//! Every failure of a run is captured as a descriptive string and carries a
//! kind: a fault in the configuration itself, an unreadable referenced file,
//! JSON that does not parse, or a failure reported by the blockchain client.

use vstd::prelude::*;

verus! {

/// A failure of one deployment run, classified by where it arose.
#[derive(Debug, Clone)]
pub enum DeployError {
    /// The configuration is missing, unreadable, invalid, or lacks a required field.
    ConfigError { message: String },
    /// A file referenced by the configuration could not be read.
    FileError { message: String },
    /// A referenced document (ABI, constructor parameters) is not valid JSON.
    ParseError { message: String },
    /// The blockchain client reported a failure.
    ClientError { message: String },
}

impl DeployError {
    /// The descriptive text carried by this error, whatever its kind.
    pub open spec fn text(&self) -> Seq<char> {
        match self {
            DeployError::ConfigError { message } => message@,
            DeployError::FileError { message } => message@,
            DeployError::ParseError { message } => message@,
            DeployError::ClientError { message } => message@,
        }
    }

    /// Hands out the descriptive text, for reporting to the user.
    pub fn message(&self) -> (r: &String)
        ensures
            r@ == self.text(),
    {
        match self {
            DeployError::ConfigError { message } => message,
            DeployError::FileError { message } => message,
            DeployError::ParseError { message } => message,
            DeployError::ClientError { message } => message,
        }
    }
}

} // verus!
