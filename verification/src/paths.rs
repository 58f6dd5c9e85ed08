//! The path resolver: the four root locations and, for a section and a
//! file, the two places where that file may exist. Paths are text, composed
//! by concatenation; nothing here touches the file system.

use vstd::prelude::*;
use vstd::string::*;
use crate::error::DotfilesError;
use crate::text::{join, join_path};

verus! {

/// The four locations that every command works from.
#[derive(Debug)]
pub struct FilePaths {
    pub repo_dir: String,
    pub config_dir: String,
    pub distribution_file: String,
    pub dotignore_file: String,
}

/// Asks `dirs::home_dir` for the user's home directory and returns it as
/// text. The answer depends on the environment of the process, so nothing
/// is claimed of it.
#[verifier::external_body]
fn home_directory() -> Option<String> {
    match dirs::home_dir() {
        Some(path) => Some(path.to_string_lossy().into_owned()),
        None => None,
    }
}

impl FilePaths {
    /// The layout below a home directory: the repository at
    /// `<home>/repos/dotfiles`, the live configuration at `<home>/.config`,
    /// the manifest and the ignore file directly inside the repository.
    pub open spec fn rooted_at(&self, home: Seq<char>) -> bool {
        &&& self.repo_dir@ == join_path(join_path(home, "repos"@), "dotfiles"@)
        &&& self.config_dir@ == join_path(home, ".config"@)
        &&& self.distribution_file@ == join_path(self.repo_dir@, "distribution.toml"@)
        &&& self.dotignore_file@ == join_path(self.repo_dir@, ".dotignore"@)
    }

    /// `<repo>/config/<section>`
    pub open spec fn spec_repo_config_dir(&self, section: Seq<char>) -> Seq<char> {
        join_path(join_path(self.repo_dir@, "config"@), section)
    }

    /// `<config>/<section>`
    pub open spec fn spec_config_section_dir(&self, section: Seq<char>) -> Seq<char> {
        join_path(self.config_dir@, section)
    }

    /// `<repo>/config/<section>/<file>`
    pub open spec fn spec_repo_file_path(&self, section: Seq<char>, file: Seq<char>) -> Seq<char> {
        join_path(self.spec_repo_config_dir(section), file)
    }

    /// `<config>/<section>/<file>`
    pub open spec fn spec_config_file_path(&self, section: Seq<char>, file: Seq<char>) -> Seq<
        char,
    > {
        join_path(self.spec_config_section_dir(section), file)
    }

    /// The paths below the home directory of the current user. Fails with
    /// `RepoNotFound` when no home directory can be determined.
    pub fn new() -> (r: Result<FilePaths, DotfilesError>)
        ensures
            match r {
                Ok(paths) => exists|home: Seq<char>| paths.rooted_at(home),
                Err(e) => e matches DotfilesError::RepoNotFound(msg) && msg@
                    == "Home directory not found"@,
            },
    {
        let home = home_directory();
        let ghost found = home;
        let r = FilePaths::from_home(home);
        proof {
            if r is Ok {
                assert(r.unwrap().rooted_at(found.unwrap()@));
            }
        }
        r
    }

    /// The paths below `home`; `RepoNotFound` when there is no home
    /// directory.
    pub fn from_home(home: Option<String>) -> (r: Result<FilePaths, DotfilesError>)
        ensures
            match home {
                Some(h) => r is Ok && r.unwrap().rooted_at(h@),
                None => r matches Err(DotfilesError::RepoNotFound(msg)) && msg@
                    == "Home directory not found"@,
            },
    {
        match home {
            Some(h) => {
                let repos = join(h.as_str(), "repos");
                let repo_dir = join(repos.as_str(), "dotfiles");
                let config_dir = join(h.as_str(), ".config");
                let distribution_file = join(repo_dir.as_str(), "distribution.toml");
                let dotignore_file = join(repo_dir.as_str(), ".dotignore");
                Ok(FilePaths { repo_dir, config_dir, distribution_file, dotignore_file })
            },
            None => Err(DotfilesError::RepoNotFound("Home directory not found".to_owned())),
        }
    }

    /// The directory of a section inside the repository.
    pub fn repo_config_dir(&self, section: &str) -> (r: String)
        ensures
            r@ == self.spec_repo_config_dir(section@),
    {
        let config = join(self.repo_dir.as_str(), "config");
        join(config.as_str(), section)
    }

    /// The directory of a section in the live configuration.
    pub fn config_section_dir(&self, section: &str) -> (r: String)
        ensures
            r@ == self.spec_config_section_dir(section@),
    {
        join(self.config_dir.as_str(), section)
    }

    /// Where the tracked copy of a file lies in the repository.
    pub fn repo_file_path(&self, section: &str, file: &str) -> (r: String)
        ensures
            r@ == self.spec_repo_file_path(section@, file@),
    {
        let dir = self.repo_config_dir(section);
        join(dir.as_str(), file)
    }

    /// Where the live copy of a file lies.
    pub fn config_file_path(&self, section: &str, file: &str) -> (r: String)
        ensures
            r@ == self.spec_config_file_path(section@, file@),
    {
        let dir = self.config_section_dir(section);
        join(dir.as_str(), file)
    }
}

} // verus!
