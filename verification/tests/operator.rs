use dotfiles_rs::error::DotfilesError;
use dotfiles_rs::ignore::DotIgnore;
use dotfiles_rs::manifest::Distribution;
use dotfiles_rs::operator::{
    plan_add, plan_install, plan_remove, plan_sync, same_bytes, status_line, AddOutcome, Direction,
    FileManager, FilePair, FileStatus, Operation, RemoveOutcome,
};
use dotfiles_rs::paths::FilePaths;
use dotfiles_rs::report::{Colour, Report, Severity};
use dotfiles_rs::store::DistributionParser;

fn test_paths() -> FilePaths {
    FilePaths::from_home(Some("/h".to_string())).unwrap()
}

fn no_ignore() -> DotIgnore {
    DotIgnore::from_content("").unwrap()
}

fn token_ignore() -> DotIgnore {
    DotIgnore::from_content("*token*\n").unwrap()
}

fn file_store() -> DistributionParser {
    DistributionParser::new("/h/repos/dotfiles/distribution.toml".to_string())
}

fn pair(repo: Option<&str>, live: Option<&str>) -> FilePair {
    FilePair { repo: repo.map(|s| s.as_bytes().to_vec()), live: live.map(|s| s.as_bytes().to_vec()) }
}

fn direction_of(outcome: &dotfiles_rs::operator::Outcome) -> Option<Direction> {
    outcome.transfer.as_ref().map(|t| t.direction)
}

#[test]
fn severities_have_their_glyph_and_colour() {
    assert_eq!(Severity::Success.glyph(), "\u{2713}");
    assert_eq!(Severity::Warning.glyph(), "\u{26a0}");
    assert_eq!(Severity::Error.glyph(), "\u{2717}");
    assert_eq!(Severity::Info.glyph(), "\u{2139}");
    assert_eq!(Severity::Modified.glyph(), "\u{2192}");
    assert_eq!(Severity::Success.colour(), Colour::Green);
    assert_eq!(Severity::Warning.colour(), Colour::Yellow);
    assert_eq!(Severity::Error.colour(), Colour::Red);
    assert_eq!(Severity::Info.colour(), Colour::Blue);
    assert_eq!(Severity::Modified.colour(), Colour::Magenta);
}

#[test]
fn report_line_joins_prefix_and_subject() {
    let r = Report::line(Severity::Info, "Processing tool: ", "vim");
    assert_eq!(r.severity, Severity::Info);
    assert_eq!(r.message, "Processing tool: vim");
}

#[test]
fn same_bytes_compares_whole_files() {
    assert!(same_bytes(&b"hello".to_vec(), &b"hello".to_vec()));
    assert!(!same_bytes(&b"hello".to_vec(), &b"hellp".to_vec()));
    assert!(!same_bytes(&b"hello".to_vec(), &b"hell".to_vec()));
    assert!(same_bytes(&Vec::new(), &Vec::new()));
}

#[test]
fn status_of_each_kind() {
    assert_eq!(pair(Some("a"), Some("a")).status(true), FileStatus::Ignored);
    assert_eq!(pair(None, Some("a")).status(false), FileStatus::MissingInRepo);
    assert_eq!(pair(None, None).status(false), FileStatus::MissingInRepo);
    assert_eq!(pair(Some("a"), None).status(false), FileStatus::NotInstalled);
    assert_eq!(pair(Some("a"), Some("a")).status(false), FileStatus::Identical);
    assert_eq!(pair(Some("a"), Some("b")).status(false), FileStatus::ModifiedLocally);
}

#[test]
fn install_copies_an_existing_repo_file() {
    let paths = test_paths();
    let ignore = no_ignore();
    let manager = FileManager::new(&paths, &ignore);
    let outcome = manager.install_file("foo", "bar.conf", true);
    assert_eq!(outcome.report.severity, Severity::Success);
    assert_eq!(outcome.report.message, "Installed to local: foo/bar.conf");
    let transfer = outcome.transfer.unwrap();
    assert_eq!(transfer.direction, Direction::RepoToLive);
    assert_eq!(transfer.from, "/h/repos/dotfiles/config/foo/bar.conf");
    assert_eq!(transfer.to, "/h/.config/foo/bar.conf");
}

#[test]
fn install_warns_when_the_repo_file_is_missing() {
    let paths = test_paths();
    let ignore = no_ignore();
    let manager = FileManager::new(&paths, &ignore);
    let outcome = manager.install_file("foo", "bar.conf", false);
    assert_eq!(outcome.report.severity, Severity::Warning);
    assert_eq!(outcome.report.message, "Repo file not found: foo/bar.conf");
    assert!(outcome.transfer.is_none());
}

#[test]
fn sync_copies_an_existing_live_file() {
    let paths = test_paths();
    let ignore = no_ignore();
    let manager = FileManager::new(&paths, &ignore);
    let outcome = manager.sync_file("foo", "sub/bar.conf", true);
    assert_eq!(outcome.report.severity, Severity::Success);
    assert_eq!(outcome.report.message, "Synced to repo: foo/sub/bar.conf");
    let transfer = outcome.transfer.unwrap();
    assert_eq!(transfer.direction, Direction::LiveToRepo);
    assert_eq!(transfer.from, "/h/.config/foo/sub/bar.conf");
    assert_eq!(transfer.to, "/h/repos/dotfiles/config/foo/sub/bar.conf");
}

#[test]
fn sync_warns_when_the_live_file_is_missing() {
    let paths = test_paths();
    let ignore = no_ignore();
    let manager = FileManager::new(&paths, &ignore);
    let outcome = manager.sync_file("foo", "bar.conf", false);
    assert_eq!(outcome.report.severity, Severity::Warning);
    assert_eq!(outcome.report.message, "Local file not found: foo/bar.conf");
    assert!(outcome.transfer.is_none());
}

#[test]
fn status_lines() {
    let paths = test_paths();
    let ignore = token_ignore();
    let manager = FileManager::new(&paths, &ignore);
    let r = manager.check_status("aws", "token.txt", &pair(Some("A"), Some("B")));
    assert_eq!((r.severity, r.message.as_str()), (Severity::Warning, "Ignored by .dotignore: aws/token.txt"));
    let r = manager.check_status("foo", "bar", &pair(None, Some("B")));
    assert_eq!((r.severity, r.message.as_str()), (Severity::Error, "Missing in repo: foo/bar"));
    let r = manager.check_status("foo", "bar", &pair(Some("A"), None));
    assert_eq!((r.severity, r.message.as_str()), (Severity::Warning, "Not installed: foo/bar"));
    let r = manager.check_status("foo", "bar", &pair(Some("A"), Some("A")));
    assert_eq!((r.severity, r.message.as_str()), (Severity::Success, "Identical: foo/bar"));
    let r = manager.check_status("foo", "bar", &pair(Some("A"), Some("B")));
    assert_eq!((r.severity, r.message.as_str()), (Severity::Modified, "Modified locally: foo/bar"));
}

#[test]
fn status_twice_reports_the_same() {
    let paths = test_paths();
    let ignore = no_ignore();
    let manager = FileManager::new(&paths, &ignore);
    let files = pair(Some("hello"), Some("world"));
    let first = manager.check_status("foo", "bar.conf", &files);
    let second = manager.check_status("foo", "bar.conf", &files);
    assert_eq!(first.severity, second.severity);
    assert_eq!(first.message, second.message);
    assert_eq!(files.repo, Some(b"hello".to_vec()));
    assert_eq!(files.live, Some(b"world".to_vec()));
}

#[test]
fn add_then_status_is_identical() {
    let paths = test_paths();
    let ignore = no_ignore();
    let manager = FileManager::new(&paths, &ignore);
    let store = file_store();
    let mut files = pair(None, Some("hello"));
    let outcome = manager.add_file(&store, Some(Distribution::new()), "foo", "bar.conf", true).unwrap();
    match outcome {
        AddOutcome::Added { manifest, directory, transfer, report } => {
            assert_eq!(manifest.tools(), vec!["foo"]);
            assert_eq!(manifest.files("foo"), vec!["bar.conf"]);
            assert_eq!(directory, "/h/repos/dotfiles/config/foo");
            assert_eq!(transfer.direction, Direction::LiveToRepo);
            assert_eq!(transfer.from, "/h/.config/foo/bar.conf");
            assert_eq!(transfer.to, "/h/repos/dotfiles/config/foo/bar.conf");
            assert_eq!(report.severity, Severity::Success);
            assert_eq!(report.message, "Added to tracking: foo/bar.conf");
            files.apply(Some(transfer.direction));
        }
        AddOutcome::Ignored(r) => panic!("unexpected: {:?}", r),
    }
    assert_eq!(files.repo, Some(b"hello".to_vec()));
    let r = manager.check_status("foo", "bar.conf", &files);
    assert_eq!(r.message, "Identical: foo/bar.conf");
}

#[test]
fn drift_detection() {
    let paths = test_paths();
    let ignore = no_ignore();
    let manager = FileManager::new(&paths, &ignore);
    let files = pair(Some("hello"), Some("world"));
    let r = manager.check_status("foo", "bar.conf", &files);
    assert_eq!(r.severity, Severity::Modified);
    assert_eq!(r.message, "Modified locally: foo/bar.conf");
}

#[test]
fn install_overwrites() {
    let paths = test_paths();
    let ignore = no_ignore();
    let manager = FileManager::new(&paths, &ignore);
    let mut files = pair(Some("hello"), Some("world"));
    let outcome = manager.install_file("foo", "bar.conf", files.repo.is_some());
    files.apply(direction_of(&outcome));
    assert_eq!(files.live, Some(b"hello".to_vec()));
    assert_eq!(files.repo, Some(b"hello".to_vec()));
    assert_eq!(manager.check_status("foo", "bar.conf", &files).message, "Identical: foo/bar.conf");
}

#[test]
fn sync_then_status_is_identical() {
    let paths = test_paths();
    let ignore = no_ignore();
    let manager = FileManager::new(&paths, &ignore);
    let mut files = pair(Some("old"), Some("new"));
    let outcome = manager.sync_file("foo", "bar.conf", files.live.is_some());
    files.apply(direction_of(&outcome));
    assert_eq!(files.repo, Some(b"new".to_vec()));
    assert_eq!(files.live, Some(b"new".to_vec()));
    assert_eq!(manager.check_status("foo", "bar.conf", &files).severity, Severity::Success);
}

#[test]
fn ignore_shields_writes() {
    let paths = test_paths();
    let ignore = token_ignore();
    let manager = FileManager::new(&paths, &ignore);
    let mut files = pair(Some("B"), Some("A"));
    let installed = manager.install_file("aws", "token.txt", true);
    assert_eq!(installed.report.severity, Severity::Warning);
    assert_eq!(installed.report.message, "Ignored by .dotignore: aws/token.txt");
    assert!(installed.transfer.is_none());
    files.apply(direction_of(&installed));
    let synced = manager.sync_file("aws", "token.txt", true);
    assert_eq!(synced.report.severity, Severity::Warning);
    assert_eq!(synced.report.message, "Ignored by .dotignore: aws/token.txt");
    assert!(synced.transfer.is_none());
    files.apply(direction_of(&synced));
    assert_eq!(files.live, Some(b"A".to_vec()));
    assert_eq!(files.repo, Some(b"B".to_vec()));
}

#[test]
fn ignore_looks_at_the_basename_only() {
    let paths = test_paths();
    let ignore = token_ignore();
    let manager = FileManager::new(&paths, &ignore);
    assert!(manager.install_file("aws", "deep/dir/api_token", true).transfer.is_none());
    assert!(manager.install_file("token", "config", true).transfer.is_some());
    assert!(manager.sync_file("aws", "token/config", true).transfer.is_some());
}

#[test]
fn apply_without_a_copy_changes_nothing() {
    let mut files = pair(Some("B"), None);
    files.apply(None);
    assert_eq!(files.repo, Some(b"B".to_vec()));
    assert_eq!(files.live, None);
    files.apply(Some(Direction::RepoToLive));
    assert_eq!(files.live, Some(b"B".to_vec()));
}

#[test]
fn add_requires_the_live_file() {
    let paths = test_paths();
    let ignore = no_ignore();
    let manager = FileManager::new(&paths, &ignore);
    match manager.add_file(&file_store(), None, "foo", "bar.conf", false) {
        Err(DotfilesError::FileNotFound(path)) => assert_eq!(path, "/h/.config/foo/bar.conf"),
        other => panic!("unexpected: {:?}", other),
    }
}

#[test]
fn add_of_an_ignored_file_only_warns() {
    let paths = test_paths();
    let ignore = token_ignore();
    let manager = FileManager::new(&paths, &ignore);
    match manager.add_file(&file_store(), None, "aws", "token.txt", false) {
        Ok(AddOutcome::Ignored(r)) => {
            assert_eq!(r.severity, Severity::Warning);
            assert_eq!(r.message, "Ignored by .dotignore: aws/token.txt");
        }
        other => panic!("unexpected: {:?}", other),
    }
}

#[test]
fn add_in_embedded_mode_is_refused() {
    let paths = test_paths();
    let ignore = no_ignore();
    let manager = FileManager::new(&paths, &ignore);
    match manager.add_file(&DistributionParser::from_embedded(), None, "foo", "bar.conf", true) {
        Err(DotfilesError::InvalidCommand(msg)) => {
            assert_eq!(msg, "Cannot modify distribution file in embedded mode")
        }
        other => panic!("unexpected: {:?}", other),
    }
}

#[test]
fn remove_leaves_file() {
    let paths = test_paths();
    let ignore = no_ignore();
    let manager = FileManager::new(&paths, &ignore);
    let mut manifest = Distribution::new();
    manifest.add("foo", "bar.conf");
    match manager.remove_file(&file_store(), manifest, "foo", "bar.conf", true).unwrap() {
        RemoveOutcome::Removed { manifest, report, leftover, command } => {
            assert_eq!(manifest.find_section("foo"), Some(0));
            assert!(manifest.files("foo").is_empty());
            assert_eq!(report.severity, Severity::Info);
            assert_eq!(report.message, "Removed from distribution file: foo/bar.conf");
            let leftover = leftover.unwrap();
            assert_eq!(leftover.severity, Severity::Warning);
            assert_eq!(
                leftover.message,
                "To complete removal, manually delete the file: /h/repos/dotfiles/config/foo/bar.conf"
            );
            assert_eq!(command.unwrap(), "rm /h/repos/dotfiles/config/foo/bar.conf");
        }
        RemoveOutcome::Ignored(r) => panic!("unexpected: {:?}", r),
    }
}

#[test]
fn remove_without_a_repo_copy_suggests_nothing() {
    let paths = test_paths();
    let ignore = no_ignore();
    let manager = FileManager::new(&paths, &ignore);
    let mut manifest = Distribution::new();
    manifest.add("foo", "bar.conf");
    match manager.remove_file(&file_store(), manifest, "foo", "bar.conf", false).unwrap() {
        RemoveOutcome::Removed { leftover, command, .. } => {
            assert!(leftover.is_none());
            assert!(command.is_none());
        }
        RemoveOutcome::Ignored(r) => panic!("unexpected: {:?}", r),
    }
}

#[test]
fn remove_of_an_unknown_tool_fails() {
    let paths = test_paths();
    let ignore = no_ignore();
    let manager = FileManager::new(&paths, &ignore);
    match manager.remove_file(&file_store(), Distribution::new(), "foo", "bar.conf", true) {
        Err(DotfilesError::InvalidCommand(msg)) => assert_eq!(msg, "Tool 'foo' not found"),
        other => panic!("unexpected: {:?}", other),
    }
}

#[test]
fn remove_of_an_ignored_file_only_warns() {
    let paths = test_paths();
    let ignore = token_ignore();
    let manager = FileManager::new(&paths, &ignore);
    match manager.remove_file(&file_store(), Distribution::new(), "aws", "token.txt", true) {
        Ok(RemoveOutcome::Ignored(r)) => {
            assert_eq!(r.message, "Ignored by .dotignore: aws/token.txt")
        }
        other => panic!("unexpected: {:?}", other),
    }
}

#[test]
fn process_file_dispatches_on_the_operation() {
    let paths = test_paths();
    let ignore = no_ignore();
    let manager = FileManager::new(&paths, &ignore);
    let mut files = pair(Some("hello"), Some("world"));
    let status = manager.process_file(Operation::Status, "foo", "bar.conf", &files);
    assert_eq!(status.report.message, "Modified locally: foo/bar.conf");
    assert!(status.transfer.is_none());
    let sync = manager.process_file(Operation::Sync, "foo", "bar.conf", &files);
    assert_eq!(sync.report.message, "Synced to repo: foo/bar.conf");
    assert_eq!(direction_of(&sync), Some(Direction::LiveToRepo));
    files.apply(direction_of(&sync));
    assert_eq!(files.repo, Some(b"world".to_vec()));
    let install = manager.process_file(Operation::Install, "foo", "bar.conf", &pair(None, Some("x")));
    assert_eq!(install.report.message, "Repo file not found: foo/bar.conf");
    assert!(install.transfer.is_none());
    let install = manager.process_file(Operation::Install, "foo", "bar.conf", &files);
    assert_eq!(direction_of(&install), Some(Direction::RepoToLive));
}

#[test]
fn decisions_from_plain_facts() {
    let paths = test_paths();
    assert!(plan_install(&paths, "a", "b", true, true).transfer.is_none());
    assert!(plan_install(&paths, "a", "b", false, true).transfer.is_some());
    assert!(plan_install(&paths, "a", "b", false, false).transfer.is_none());
    assert!(plan_sync(&paths, "a", "b", true, true).transfer.is_none());
    assert!(plan_sync(&paths, "a", "b", false, true).transfer.is_some());
    assert!(plan_sync(&paths, "a", "b", false, false).transfer.is_none());
    assert_eq!(status_line("a", "b", FileStatus::Identical).message, "Identical: a/b");
    assert_eq!(status_line("a", "b", FileStatus::MissingInRepo).severity, Severity::Error);
    assert!(matches!(
        plan_add(&paths, &file_store(), None, "a", "b", true, false),
        Ok(AddOutcome::Ignored(_))
    ));
    assert!(matches!(
        plan_add(&paths, &file_store(), None, "a", "b", false, false),
        Err(DotfilesError::FileNotFound(_))
    ));
    assert!(matches!(
        plan_remove(&paths, &file_store(), Distribution::new(), "a", "b", true, false),
        Ok(RemoveOutcome::Ignored(_))
    ));
    assert!(matches!(
        plan_remove(&paths, &file_store(), Distribution::new(), "a", "b", false, false),
        Err(DotfilesError::InvalidCommand(_))
    ));
}
