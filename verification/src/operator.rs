//! The file operator: what install, sync, status, add and remove decide for
//! one file of one section. Every decision is taken from plain facts about
//! the two copies of the file; the caller performs the copy that is asked
//! for and prints the lines.

use vstd::prelude::*;
use vstd::string::*;
use crate::error::DotfilesError;
use crate::ignore::DotIgnore;
use crate::manifest::{add_entry, has_section, remove_entry, tool_not_found_text, Distribution};
use crate::paths::FilePaths;
use crate::report::{Report, Severity};
use crate::store::{embedded_write_text, starting_state, DistributionParser};
use crate::text::{join, join_path};

verus! {

/// The direction of a copy.
#[derive(Debug, Clone, Copy, PartialEq, Eq, Structural)]
pub enum Direction {
    /// From the repository to the live configuration.
    RepoToLive,
    /// From the live configuration to the repository.
    LiveToRepo,
}

/// A byte copy to perform: the parent directory of `to` is created when it
/// is missing, then `to` is overwritten with the bytes of `from`.
#[derive(Debug)]
pub struct Transfer {
    pub direction: Direction,
    pub from: String,
    pub to: String,
}

/// What install or sync decided for one file.
#[derive(Debug)]
pub struct Outcome {
    pub report: Report,
    pub transfer: Option<Transfer>,
}

impl Outcome {
    /// The direction of the copy that was decided, if any.
    pub open spec fn copy(&self) -> Option<Direction> {
        match self.transfer {
            Some(t) => Some(t.direction),
            None => None,
        }
    }
}

/// What add decided for one file.
#[derive(Debug)]
pub enum AddOutcome {
    /// The file is ignored: nothing is written.
    Ignored(Report),
    /// The manifest to write back, the directory to create, the copy to
    /// perform and the line to print when all of it succeeded.
    Added { manifest: Distribution, directory: String, transfer: Transfer, report: Report },
}

/// What remove decided for one file.
#[derive(Debug)]
pub enum RemoveOutcome {
    /// The file is ignored: nothing is written.
    Ignored(Report),
    /// The manifest to write back and the line to print. When the
    /// repository still holds the file, `leftover` is the warning that
    /// names it and `command` the shell command that deletes it.
    Removed {
        manifest: Distribution,
        report: Report,
        leftover: Option<Report>,
        command: Option<String>,
    },
}

/// The two copies of a file as they are on disk: the bytes of each, or
/// `None` for a copy that does not exist.
#[derive(Debug)]
pub struct FilePair {
    pub repo: Option<Vec<u8>>,
    pub live: Option<Vec<u8>>,
}

/// The two copies of a file, as mathematics.
pub struct PairState {
    pub repo: Option<Seq<u8>>,
    pub live: Option<Seq<u8>>,
}

/// What status can say of a file.
#[derive(Debug, Clone, Copy, PartialEq, Eq, Structural)]
pub enum FileStatus {
    Ignored,
    MissingInRepo,
    NotInstalled,
    Identical,
    ModifiedLocally,
}

/// The three operations that run over every tracked file.
#[derive(Debug, Clone, Copy, PartialEq, Eq, Structural)]
pub enum Operation {
    Install,
    Sync,
    Status,
}

/// The status of a file: ignored files come first, then a missing
/// repository copy, then a missing live copy, then the comparison of the
/// bytes.
pub open spec fn status_of(ignored: bool, pair: PairState) -> FileStatus {
    if ignored {
        FileStatus::Ignored
    } else if pair.repo is None {
        FileStatus::MissingInRepo
    } else if pair.live is None {
        FileStatus::NotInstalled
    } else if pair.repo->0 == pair.live->0 {
        FileStatus::Identical
    } else {
        FileStatus::ModifiedLocally
    }
}

/// The copy that an operation performs on a file, if any: install copies
/// an existing repository file, sync an existing live file, and nothing is
/// copied for an ignored file or by status.
pub open spec fn copy_of(op: Operation, ignored: bool, pair: PairState) -> Option<Direction> {
    match op {
        Operation::Install => if !ignored && pair.repo is Some {
            Some(Direction::RepoToLive)
        } else {
            None
        },
        Operation::Sync => if !ignored && pair.live is Some {
            Some(Direction::LiveToRepo)
        } else {
            None
        },
        Operation::Status => None,
    }
}

/// The two copies after a copy was performed.
pub open spec fn after_copy(pair: PairState, copy: Option<Direction>) -> PairState {
    match copy {
        Some(Direction::RepoToLive) => PairState { live: pair.repo, ..pair },
        Some(Direction::LiveToRepo) => PairState { repo: pair.live, ..pair },
        None => pair,
    }
}

/// The two copies after an operation.
pub open spec fn after(op: Operation, ignored: bool, pair: PairState) -> PairState {
    after_copy(pair, copy_of(op, ignored, pair))
}

/// The severity of the line for a status.
pub open spec fn status_severity(status: FileStatus) -> Severity {
    match status {
        FileStatus::Ignored => Severity::Warning,
        FileStatus::MissingInRepo => Severity::Error,
        FileStatus::NotInstalled => Severity::Warning,
        FileStatus::Identical => Severity::Success,
        FileStatus::ModifiedLocally => Severity::Modified,
    }
}

/// The words of the line for a status, in front of `<section>/<file>`.
pub open spec fn status_prefix(status: FileStatus) -> Seq<char> {
    match status {
        FileStatus::Ignored => "Ignored by .dotignore: "@,
        FileStatus::MissingInRepo => "Missing in repo: "@,
        FileStatus::NotInstalled => "Not installed: "@,
        FileStatus::Identical => "Identical: "@,
        FileStatus::ModifiedLocally => "Modified locally: "@,
    }
}

/// An ignored file is left alone: neither install nor sync changes either
/// copy.
pub proof fn lemma_ignored_files_untouched(op: Operation, pair: PairState)
    ensures
        copy_of(op, true, pair) is None,
        after(op, true, pair) == pair,
{
}

/// Status changes neither copy, so a second status reports what the first
/// did.
pub proof fn lemma_status_is_pure(ignored: bool, pair: PairState)
    ensures
        after(Operation::Status, ignored, pair) == pair,
        status_of(ignored, after(Operation::Status, ignored, pair)) == status_of(ignored, pair),
{
}

/// After a sync that copied, and after an install that copied, status
/// reports the two copies as identical.
pub proof fn lemma_copy_makes_identical(op: Operation, ignored: bool, pair: PairState)
    requires
        copy_of(op, ignored, pair) is Some,
    ensures
        status_of(ignored, after(op, ignored, pair)) == FileStatus::Identical,
{
}

impl View for FilePair {
    type V = PairState;

    open spec fn view(&self) -> PairState {
        PairState {
            repo: match self.repo {
                Some(bytes) => Some(bytes@),
                None => None,
            },
            live: match self.live {
                Some(bytes) => Some(bytes@),
                None => None,
            },
        }
    }
}

/// Whether two byte strings are the same.
pub fn same_bytes(a: &Vec<u8>, b: &Vec<u8>) -> (r: bool)
    ensures
        r == (a@ == b@),
{
    if a.len() != b.len() {
        return false;
    }
    let mut i: usize = 0;
    while i < a.len()
        invariant
            i <= a.len() == b.len(),
            forall|j: int| 0 <= j < i ==> a@[j] == b@[j],
        decreases a.len() - i,
    {
        if a[i] != b[i] {
            return false;
        }
        i += 1;
    }
    assert(a@ =~= b@);
    true
}

/// A copy of a byte string.
fn copy_bytes(a: &Vec<u8>) -> (r: Vec<u8>)
    ensures
        r@ == a@,
{
    let mut out: Vec<u8> = Vec::new();
    let mut i: usize = 0;
    while i < a.len()
        invariant
            i <= a.len(),
            out@ == a@.take(i as int),
        decreases a.len() - i,
    {
        out.push(a[i]);
        assert(out@ =~= a@.take(i + 1));
        i += 1;
    }
    assert(a@.take(a.len() as int) =~= a@);
    out
}

impl FilePair {
    /// Performs a copy on the pair: the target becomes what the source is.
    pub fn apply(&mut self, copy: Option<Direction>)
        ensures
            final(self)@ == after_copy(old(self)@, copy),
    {
        match copy {
            Some(Direction::RepoToLive) => {
                self.live = match &self.repo {
                    Some(bytes) => Some(copy_bytes(bytes)),
                    None => None,
                };
            },
            Some(Direction::LiveToRepo) => {
                self.repo = match &self.live {
                    Some(bytes) => Some(copy_bytes(bytes)),
                    None => None,
                };
            },
            None => {},
        }
    }

    /// The status of the pair.
    pub fn status(&self, ignored: bool) -> (r: FileStatus)
        ensures
            r == status_of(ignored, self@),
    {
        if ignored {
            return FileStatus::Ignored;
        }
        match &self.repo {
            None => FileStatus::MissingInRepo,
            Some(repo) => match &self.live {
                None => FileStatus::NotInstalled,
                Some(live) => if same_bytes(repo, live) {
                    FileStatus::Identical
                } else {
                    FileStatus::ModifiedLocally
                },
            },
        }
    }
}

/// The copy from the repository to the live configuration.
pub open spec fn installs(paths: &FilePaths, t: Transfer, section: Seq<char>, file: Seq<char>) -> bool {
    &&& t.direction == Direction::RepoToLive
    &&& t.from@ == paths.spec_repo_file_path(section, file)
    &&& t.to@ == paths.spec_config_file_path(section, file)
}

/// The copy from the live configuration to the repository.
pub open spec fn syncs(paths: &FilePaths, t: Transfer, section: Seq<char>, file: Seq<char>) -> bool {
    &&& t.direction == Direction::LiveToRepo
    &&& t.from@ == paths.spec_config_file_path(section, file)
    &&& t.to@ == paths.spec_repo_file_path(section, file)
}

/// What install owes for a file: an ignored file gets a warning and no
/// copy; an existing repository file is copied over the live one; a
/// missing one gets a warning.
pub open spec fn install_decided(
    paths: &FilePaths,
    section: Seq<char>,
    file: Seq<char>,
    ignored: bool,
    repo_exists: bool,
    r: Outcome,
) -> bool {
    let display = join_path(section, file);
    if ignored {
        r.transfer is None && r.report.says(Severity::Warning, "Ignored by .dotignore: "@, display)
    } else if repo_exists {
        r.transfer is Some && installs(paths, r.transfer->0, section, file) && r.report.says(
            Severity::Success,
            "Installed to local: "@,
            display,
        )
    } else {
        r.transfer is None && r.report.says(Severity::Warning, "Repo file not found: "@, display)
    }
}

/// What sync owes for a file: an ignored file gets a warning and no copy;
/// an existing live file is copied over the repository one; a missing one
/// gets a warning.
pub open spec fn sync_decided(
    paths: &FilePaths,
    section: Seq<char>,
    file: Seq<char>,
    ignored: bool,
    live_exists: bool,
    r: Outcome,
) -> bool {
    let display = join_path(section, file);
    if ignored {
        r.transfer is None && r.report.says(Severity::Warning, "Ignored by .dotignore: "@, display)
    } else if live_exists {
        r.transfer is Some && syncs(paths, r.transfer->0, section, file) && r.report.says(
            Severity::Success,
            "Synced to repo: "@,
            display,
        )
    } else {
        r.transfer is None && r.report.says(Severity::Warning, "Local file not found: "@, display)
    }
}

/// What add owes for a file. An ignored file gets a warning and nothing
/// else. Otherwise the live file must exist (`FileNotFound` with its path
/// when it does not) and the store must accept the write
/// (`InvalidCommand` when it does not); the result then holds the manifest
/// with the entry, the repository directory of the section, the copy from
/// the live file to the repository, and the line that reports it.
pub open spec fn add_decided(
    paths: &FilePaths,
    store: &DistributionParser,
    current: Option<Distribution>,
    section: Seq<char>,
    file: Seq<char>,
    ignored: bool,
    live_exists: bool,
    r: Result<AddOutcome, DotfilesError>,
) -> bool {
    let display = join_path(section, file);
    if ignored {
        r matches Ok(AddOutcome::Ignored(report)) && report.says(
            Severity::Warning,
            "Ignored by .dotignore: "@,
            display,
        )
    } else if !live_exists {
        r matches Err(DotfilesError::FileNotFound(path)) && path@ == paths.spec_config_file_path(
            section,
            file,
        )
    } else if !store.writable() {
        r matches Err(DotfilesError::InvalidCommand(msg)) && msg@ == embedded_write_text()
    } else {
        r matches Ok(AddOutcome::Added { manifest, directory, transfer, report }) && manifest@
            == add_entry(starting_state(current), section, file) && directory@
            == paths.spec_repo_config_dir(section) && syncs(paths, transfer, section, file)
            && report.says(Severity::Success, "Added to tracking: "@, display)
    }
}

/// Whether `leftover` and `command` are what remove says of a repository
/// copy: nothing when there is none, else the warning that names the file
/// and the `rm` command that deletes it.
pub open spec fn points_at_leftover(
    paths: &FilePaths,
    leftover: Option<Report>,
    command: Option<String>,
    section: Seq<char>,
    file: Seq<char>,
    repo_exists: bool,
) -> bool {
    if repo_exists {
        &&& leftover is Some
        &&& leftover->0.says(
            Severity::Warning,
            "To complete removal, manually delete the file: "@,
            paths.spec_repo_file_path(section, file),
        )
        &&& command is Some
        &&& command->0@ == "rm "@ + paths.spec_repo_file_path(section, file)
    } else {
        leftover is None && command is None
    }
}

/// What remove owes for a file. An ignored file gets a warning and nothing
/// else. Otherwise the manifest must have the section and the store must
/// accept the write (`InvalidCommand` for either); the result then holds
/// the manifest without the entry and the line that reports it. No file
/// is deleted: a repository copy that is still there is pointed at.
pub open spec fn remove_decided(
    paths: &FilePaths,
    store: &DistributionParser,
    current: Distribution,
    section: Seq<char>,
    file: Seq<char>,
    ignored: bool,
    repo_exists: bool,
    r: Result<RemoveOutcome, DotfilesError>,
) -> bool {
    let display = join_path(section, file);
    if ignored {
        r matches Ok(RemoveOutcome::Ignored(report)) && report.says(
            Severity::Warning,
            "Ignored by .dotignore: "@,
            display,
        )
    } else if !has_section(current@, section) {
        r matches Err(DotfilesError::InvalidCommand(msg)) && msg@ == tool_not_found_text(section)
    } else if !store.writable() {
        r matches Err(DotfilesError::InvalidCommand(msg)) && msg@ == embedded_write_text()
    } else {
        r matches Ok(RemoveOutcome::Removed { manifest, report, leftover, command }) && manifest@
            == remove_entry(current@, section, file) && report.says(
            Severity::Info,
            "Removed from distribution file: "@,
            display,
        ) && points_at_leftover(paths, leftover, command, section, file, repo_exists)
    }
}

/// Install for a file of which it is known whether it is ignored and
/// whether its repository copy exists.
pub fn plan_install(
    paths: &FilePaths,
    section: &str,
    file: &str,
    ignored: bool,
    repo_exists: bool,
) -> (r: Outcome)
    ensures
        install_decided(paths, section@, file@, ignored, repo_exists, r),
        forall|pair: PairState|
            (pair.repo is Some) == repo_exists ==> r.copy() == #[trigger] copy_of(
                Operation::Install,
                ignored,
                pair,
            ),
{
    let display = join(section, file);
    if ignored {
        Outcome {
            report: Report::line(Severity::Warning, "Ignored by .dotignore: ", display.as_str()),
            transfer: None,
        }
    } else if repo_exists {
        let transfer = Transfer {
            direction: Direction::RepoToLive,
            from: paths.repo_file_path(section, file),
            to: paths.config_file_path(section, file),
        };
        Outcome {
            report: Report::line(Severity::Success, "Installed to local: ", display.as_str()),
            transfer: Some(transfer),
        }
    } else {
        Outcome {
            report: Report::line(Severity::Warning, "Repo file not found: ", display.as_str()),
            transfer: None,
        }
    }
}

/// Sync for a file of which it is known whether it is ignored and whether
/// its live copy exists.
pub fn plan_sync(
    paths: &FilePaths,
    section: &str,
    file: &str,
    ignored: bool,
    live_exists: bool,
) -> (r: Outcome)
    ensures
        sync_decided(paths, section@, file@, ignored, live_exists, r),
        forall|pair: PairState|
            (pair.live is Some) == live_exists ==> r.copy() == #[trigger] copy_of(
                Operation::Sync,
                ignored,
                pair,
            ),
{
    let display = join(section, file);
    if ignored {
        Outcome {
            report: Report::line(Severity::Warning, "Ignored by .dotignore: ", display.as_str()),
            transfer: None,
        }
    } else if live_exists {
        let transfer = Transfer {
            direction: Direction::LiveToRepo,
            from: paths.config_file_path(section, file),
            to: paths.repo_file_path(section, file),
        };
        Outcome {
            report: Report::line(Severity::Success, "Synced to repo: ", display.as_str()),
            transfer: Some(transfer),
        }
    } else {
        Outcome {
            report: Report::line(Severity::Warning, "Local file not found: ", display.as_str()),
            transfer: None,
        }
    }
}

/// The line that reports a status of `<section>/<file>`.
pub fn status_line(section: &str, file: &str, status: FileStatus) -> (r: Report)
    ensures
        r.says(status_severity(status), status_prefix(status), join_path(section@, file@)),
{
    let display = join(section, file);
    match status {
        FileStatus::Ignored => Report::line(
            Severity::Warning,
            "Ignored by .dotignore: ",
            display.as_str(),
        ),
        FileStatus::MissingInRepo => Report::line(
            Severity::Error,
            "Missing in repo: ",
            display.as_str(),
        ),
        FileStatus::NotInstalled => Report::line(
            Severity::Warning,
            "Not installed: ",
            display.as_str(),
        ),
        FileStatus::Identical => Report::line(Severity::Success, "Identical: ", display.as_str()),
        FileStatus::ModifiedLocally => Report::line(
            Severity::Modified,
            "Modified locally: ",
            display.as_str(),
        ),
    }
}

/// Add for a file of which it is known whether it is ignored and whether
/// its live copy exists. `current` is the manifest that was read, if one
/// could be read.
pub fn plan_add(
    paths: &FilePaths,
    store: &DistributionParser,
    current: Option<Distribution>,
    section: &str,
    file: &str,
    ignored: bool,
    live_exists: bool,
) -> (r: Result<AddOutcome, DotfilesError>)
    ensures
        add_decided(paths, store, current, section@, file@, ignored, live_exists, r),
{
    let display = join(section, file);
    if ignored {
        return Ok(
            AddOutcome::Ignored(
                Report::line(Severity::Warning, "Ignored by .dotignore: ", display.as_str()),
            ),
        );
    }
    let source = paths.config_file_path(section, file);
    if !live_exists {
        return Err(DotfilesError::FileNotFound(source));
    }
    match store.add_file(current, section, file) {
        Ok(manifest) => {
            let transfer = Transfer {
                direction: Direction::LiveToRepo,
                from: source,
                to: paths.repo_file_path(section, file),
            };
            Ok(
                AddOutcome::Added {
                    manifest,
                    directory: paths.repo_config_dir(section),
                    transfer,
                    report: Report::line(Severity::Success, "Added to tracking: ", display.as_str()),
                },
            )
        },
        Err(e) => Err(e),
    }
}

/// Remove for a file of which it is known whether it is ignored and
/// whether its repository copy exists. `current` is the manifest that was
/// read.
pub fn plan_remove(
    paths: &FilePaths,
    store: &DistributionParser,
    current: Distribution,
    section: &str,
    file: &str,
    ignored: bool,
    repo_exists: bool,
) -> (r: Result<RemoveOutcome, DotfilesError>)
    ensures
        remove_decided(paths, store, current, section@, file@, ignored, repo_exists, r),
{
    let display = join(section, file);
    if ignored {
        return Ok(
            RemoveOutcome::Ignored(
                Report::line(Severity::Warning, "Ignored by .dotignore: ", display.as_str()),
            ),
        );
    }
    match store.remove_file(current, section, file) {
        Ok(manifest) => {
            let report = Report::line(
                Severity::Info,
                "Removed from distribution file: ",
                display.as_str(),
            );
            if repo_exists {
                let repo_file = paths.repo_file_path(section, file);
                let leftover = Report::line(
                    Severity::Warning,
                    "To complete removal, manually delete the file: ",
                    repo_file.as_str(),
                );
                let command = "rm ".to_owned().concat(repo_file.as_str());
                Ok(
                    RemoveOutcome::Removed {
                        manifest,
                        report,
                        leftover: Some(leftover),
                        command: Some(command),
                    },
                )
            } else {
                Ok(RemoveOutcome::Removed { manifest, report, leftover: None, command: None })
            }
        },
        Err(e) => Err(e),
    }
}

/// The file operator: the paths and the ignore list that every operation
/// works with.
pub struct FileManager<'a> {
    pub paths: &'a FilePaths,
    pub dotignore: &'a DotIgnore,
}

impl<'a> FileManager<'a> {
    pub fn new(paths: &'a FilePaths, dotignore: &'a DotIgnore) -> (r: FileManager<'a>)
        ensures
            r.paths == paths,
            r.dotignore == dotignore,
    {
        FileManager { paths, dotignore }
    }

    /// Install: an ignored file gets a warning and no copy; an existing
    /// repository file is copied over the live one; a missing one gets a
    /// warning.
    pub fn install_file(&self, section: &str, file: &str, repo_exists: bool) -> (r: Outcome)
        ensures
            install_decided(
                self.paths,
                section@,
                file@,
                self.dotignore.ignores(file@),
                repo_exists,
                r,
            ),
            forall|pair: PairState|
                (pair.repo is Some) == repo_exists ==> r.copy() == #[trigger] copy_of(
                    Operation::Install,
                    self.dotignore.ignores(file@),
                    pair,
                ),
    {
        let ignored = self.dotignore.is_ignored(file);
        plan_install(self.paths, section, file, ignored, repo_exists)
    }

    /// Sync: an ignored file gets a warning and no copy; an existing live
    /// file is copied over the repository one; a missing one gets a
    /// warning.
    pub fn sync_file(&self, section: &str, file: &str, live_exists: bool) -> (r: Outcome)
        ensures
            sync_decided(
                self.paths,
                section@,
                file@,
                self.dotignore.ignores(file@),
                live_exists,
                r,
            ),
            forall|pair: PairState|
                (pair.live is Some) == live_exists ==> r.copy() == #[trigger] copy_of(
                    Operation::Sync,
                    self.dotignore.ignores(file@),
                    pair,
                ),
    {
        let ignored = self.dotignore.is_ignored(file);
        plan_sync(self.paths, section, file, ignored, live_exists)
    }

    /// Status: the line for the status of the pair, which is left as it
    /// is.
    pub fn check_status(&self, section: &str, file: &str, pair: &FilePair) -> (r: Report)
        ensures
            r.says(
                status_severity(status_of(self.dotignore.ignores(file@), pair@)),
                status_prefix(status_of(self.dotignore.ignores(file@), pair@)),
                join_path(section@, file@),
            ),
    {
        let ignored = self.dotignore.is_ignored(file);
        status_line(section, file, pair.status(ignored))
    }

    /// One of the three operations on one file, decided from the two
    /// copies as they are: the line to print and the copy to perform.
    pub fn process_file(&self, op: Operation, section: &str, file: &str, pair: &FilePair) -> (r:
        Outcome)
        ensures
            r.copy() == copy_of(op, self.dotignore.ignores(file@), pair@),
            op == Operation::Install ==> install_decided(
                self.paths,
                section@,
                file@,
                self.dotignore.ignores(file@),
                pair@.repo is Some,
                r,
            ),
            op == Operation::Sync ==> sync_decided(
                self.paths,
                section@,
                file@,
                self.dotignore.ignores(file@),
                pair@.live is Some,
                r,
            ),
            op == Operation::Status ==> r.report.says(
                status_severity(status_of(self.dotignore.ignores(file@), pair@)),
                status_prefix(status_of(self.dotignore.ignores(file@), pair@)),
                join_path(section@, file@),
            ),
    {
        match op {
            Operation::Install => self.install_file(section, file, pair.repo.is_some()),
            Operation::Sync => self.sync_file(section, file, pair.live.is_some()),
            Operation::Status => Outcome {
                report: self.check_status(section, file, pair),
                transfer: None,
            },
        }
    }

    /// Add: see `add_decided`. `current` is the manifest that was read, if
    /// one could be read.
    pub fn add_file(
        &self,
        store: &DistributionParser,
        current: Option<Distribution>,
        section: &str,
        file: &str,
        live_exists: bool,
    ) -> (r: Result<AddOutcome, DotfilesError>)
        ensures
            add_decided(
                self.paths,
                store,
                current,
                section@,
                file@,
                self.dotignore.ignores(file@),
                live_exists,
                r,
            ),
    {
        let ignored = self.dotignore.is_ignored(file);
        plan_add(self.paths, store, current, section, file, ignored, live_exists)
    }

    /// Remove: see `remove_decided`. `current` is the manifest that was
    /// read.
    pub fn remove_file(
        &self,
        store: &DistributionParser,
        current: Distribution,
        section: &str,
        file: &str,
        repo_exists: bool,
    ) -> (r: Result<RemoveOutcome, DotfilesError>)
        ensures
            remove_decided(
                self.paths,
                store,
                current,
                section@,
                file@,
                self.dotignore.ignores(file@),
                repo_exists,
                r,
            ),
    {
        let ignored = self.dotignore.is_ignored(file);
        plan_remove(self.paths, store, current, section, file, ignored, repo_exists)
    }
}

} // verus!
