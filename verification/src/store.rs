//! The manifest store: the manifest together with where it came from. A
//! store backed by a file can be edited; the embedded one is read-only.

use vstd::prelude::*;
use vstd::string::*;
use crate::error::DotfilesError;
use crate::manifest::{
    add_entry, files_of, has_section, remove_entry, tool_names, tool_not_found_text, Distribution,
    SectionModel,
};
use crate::text::texts;

verus! {

/// Where a manifest is read from.
#[derive(Debug)]
pub enum DistributionSource {
    /// The manifest file at this path.
    File(String),
    /// The manifest that the binary carries.
    Embedded,
}

/// The read and write interface of the manifest.
#[derive(Debug)]
pub struct DistributionParser {
    pub source: DistributionSource,
}

/// The text of the error for a write in embedded mode.
pub open spec fn embedded_write_text() -> Seq<char> {
    "Cannot modify distribution file in embedded mode"@
}

/// The manifest that an edit starts from: the one that was read, or an
/// empty one when none could be read.
pub open spec fn starting_state(current: Option<Distribution>) -> Seq<SectionModel> {
    match current {
        Some(d) => d@,
        None => Seq::empty(),
    }
}

impl DistributionParser {
    /// A store backed by the manifest file at `path`.
    pub fn new(path: String) -> (r: DistributionParser)
        ensures
            r.source == DistributionSource::File(path),
    {
        DistributionParser { source: DistributionSource::File(path) }
    }

    /// The read-only store of the manifest that the binary carries.
    pub fn from_embedded() -> (r: DistributionParser)
        ensures
            r.source == DistributionSource::Embedded,
    {
        DistributionParser { source: DistributionSource::Embedded }
    }

    /// Whether the store can be written to.
    pub open spec fn writable(&self) -> bool {
        self.source is File
    }

    /// Turns what the parser made of the manifest text into the result of
    /// a read: a parse failure surfaces as `DistributionParseError` with
    /// the parser's message.
    pub fn read_distribution(&self, parsed: Result<Distribution, String>) -> (r: Result<
        Distribution,
        DotfilesError,
    >)
        ensures
            match parsed {
                Ok(d) => r == Ok::<Distribution, DotfilesError>(d),
                Err(msg) => r == Err::<Distribution, DotfilesError>(
                    DotfilesError::DistributionParseError(msg),
                ),
            },
    {
        match parsed {
            Ok(d) => Ok(d),
            Err(msg) => Err(DotfilesError::DistributionParseError(msg)),
        }
    }

    /// The tools of a manifest: its section names without those that begin
    /// with an underscore.
    pub fn get_tools(&self, distribution: &Distribution) -> (r: Vec<String>)
        ensures
            texts(r@) == tool_names(distribution@),
    {
        distribution.tools()
    }

    /// The files of a tool, in declared order; none when the manifest has
    /// no such section.
    pub fn get_files(&self, distribution: &Distribution, tool: &str) -> (r: Vec<String>)
        ensures
            texts(r@) == files_of(distribution@, tool@),
    {
        distribution.files(tool)
    }

    /// The manifest to write back after `file` is added to `tool`.
    /// `current` is the manifest that was read, or `None` when the file is
    /// missing or does not parse: the edit then starts from an empty
    /// manifest. The embedded store refuses with `InvalidCommand`.
    pub fn add_file(&self, current: Option<Distribution>, tool: &str, file: &str) -> (r: Result<
        Distribution,
        DotfilesError,
    >)
        ensures
            self.writable() ==> r is Ok && r.unwrap()@ == add_entry(
                starting_state(current),
                tool@,
                file@,
            ),
            !self.writable() ==> (r matches Err(DotfilesError::InvalidCommand(msg)) && msg@
                == embedded_write_text()),
    {
        let mut distribution = match current {
            Some(d) => d,
            None => Distribution::new(),
        };
        distribution.add(tool, file);
        match &self.source {
            DistributionSource::File(_) => Ok(distribution),
            DistributionSource::Embedded => Err(
                DotfilesError::InvalidCommand(
                    "Cannot modify distribution file in embedded mode".to_owned(),
                ),
            ),
        }
    }

    /// The manifest to write back after `file` is removed from `tool`. A
    /// manifest without that section is refused with `InvalidCommand`, and
    /// so is any write to the embedded store.
    pub fn remove_file(&self, current: Distribution, tool: &str, file: &str) -> (r: Result<
        Distribution,
        DotfilesError,
    >)
        ensures
            has_section(current@, tool@) && self.writable() ==> r is Ok && r.unwrap()@
                == remove_entry(current@, tool@, file@),
            !has_section(current@, tool@) ==> (r matches Err(DotfilesError::InvalidCommand(msg))
                && msg@ == tool_not_found_text(tool@)),
            has_section(current@, tool@) && !self.writable() ==> (r matches Err(
                DotfilesError::InvalidCommand(msg),
            ) && msg@ == embedded_write_text()),
    {
        let mut distribution = current;
        match distribution.remove(tool, file) {
            Ok(()) => match &self.source {
                DistributionSource::File(_) => Ok(distribution),
                DistributionSource::Embedded => Err(
                    DotfilesError::InvalidCommand(
                        "Cannot modify distribution file in embedded mode".to_owned(),
                    ),
                ),
            },
            Err(e) => Err(e),
        }
    }
}

} // verus!
