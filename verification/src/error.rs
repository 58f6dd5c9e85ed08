//! The failures that abort a command.

use vstd::prelude::*;
use vstd::string::*;

verus! {

/// Why a command could not be carried out. Each variant carries the path,
/// name or parser message that the failure is about.
#[derive(Debug)]
pub enum DotfilesError {
    /// The home directory or the repository directory is missing.
    RepoNotFound(String),
    /// The manifest file is absent.
    DistributionNotFound(String),
    /// The manifest could not be parsed or serialized.
    DistributionParseError(String),
    /// A live file named on `add` is absent.
    FileNotFound(String),
    /// Malformed arguments, an unknown tool on `remove`, or a write in
    /// embedded mode.
    InvalidCommand(String),
    /// A line of the ignore file is not a valid glob pattern.
    InvalidPattern(String),
}

impl DotfilesError {
    /// What the error carries.
    pub open spec fn detail(&self) -> Seq<char> {
        match self {
            DotfilesError::RepoNotFound(s) => s@,
            DotfilesError::DistributionNotFound(s) => s@,
            DotfilesError::DistributionParseError(s) => s@,
            DotfilesError::FileNotFound(s) => s@,
            DotfilesError::InvalidCommand(s) => s@,
            DotfilesError::InvalidPattern(s) => s@,
        }
    }

    /// The fixed text that introduces each kind of error.
    pub open spec fn prefix(&self) -> Seq<char> {
        match self {
            DotfilesError::RepoNotFound(_) => "Repository not found: "@,
            DotfilesError::DistributionNotFound(_) => "Distribution file not found: "@,
            DotfilesError::DistributionParseError(_) => "Failed to parse distribution file: "@,
            DotfilesError::FileNotFound(_) => "File not found: "@,
            DotfilesError::InvalidCommand(_) => "Invalid command format: "@,
            DotfilesError::InvalidPattern(_) => "Invalid ignore pattern: "@,
        }
    }

    /// The line shown to the user: the prefix of the kind, then the detail.
    pub fn message(&self) -> (r: String)
        ensures
            r@ == self.prefix() + self.detail(),
    {
        match self {
            DotfilesError::RepoNotFound(s) => "Repository not found: ".to_owned().concat(
                s.as_str(),
            ),
            DotfilesError::DistributionNotFound(s) => "Distribution file not found: ".to_owned().concat(
                s.as_str(),
            ),
            DotfilesError::DistributionParseError(s) => "Failed to parse distribution file: ".to_owned().concat(
            s.as_str()),
            DotfilesError::FileNotFound(s) => "File not found: ".to_owned().concat(s.as_str()),
            DotfilesError::InvalidCommand(s) => "Invalid command format: ".to_owned().concat(
                s.as_str(),
            ),
            DotfilesError::InvalidPattern(s) => "Invalid ignore pattern: ".to_owned().concat(
                s.as_str(),
            ),
        }
    }
}

} // verus!
