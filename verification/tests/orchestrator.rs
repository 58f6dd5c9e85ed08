use dotfiles_rs::error::DotfilesError;
use dotfiles_rs::manifest::{Distribution, ExtraKey, NamedSection, Section};
use dotfiles_rs::operator::Operation;
use dotfiles_rs::orchestrator::{
    check_paths, count_lines, operation_header, parse_operation, plan_run, process_section,
    run_precheck, Step,
};
use dotfiles_rs::paths::FilePaths;
use dotfiles_rs::report::Severity;

fn run_paths() -> FilePaths {
    FilePaths::from_home(Some("/h".to_string())).unwrap()
}

#[test]
fn action_names() {
    assert_eq!(parse_operation("install").unwrap(), Operation::Install);
    assert_eq!(parse_operation("sync").unwrap(), Operation::Sync);
    assert_eq!(parse_operation("status").unwrap(), Operation::Status);
    match parse_operation("Install") {
        Err(DotfilesError::InvalidCommand(msg)) => assert_eq!(msg, "Invalid action: Install"),
        other => panic!("unexpected: {:?}", other),
    }
    match parse_operation("") {
        Err(DotfilesError::InvalidCommand(msg)) => assert_eq!(msg, "Invalid action: "),
        other => panic!("unexpected: {:?}", other),
    }
}

#[test]
fn headers() {
    assert_eq!(operation_header(Operation::Install), "Installing dotfiles...");
    assert_eq!(operation_header(Operation::Sync), "Syncing dotfiles...");
    assert_eq!(operation_header(Operation::Status), "Checking dotfiles status...");
}

#[test]
fn preflight_needs_the_repository_first() {
    let paths = run_paths();
    match check_paths(&paths, false, false, false) {
        Err(DotfilesError::RepoNotFound(p)) => assert_eq!(p, "/h/repos/dotfiles"),
        other => panic!("unexpected: {:?}", other),
    }
    match check_paths(&paths, false, true, true) {
        Err(DotfilesError::RepoNotFound(p)) => assert_eq!(p, "/h/repos/dotfiles"),
        other => panic!("unexpected: {:?}", other),
    }
}

#[test]
fn preflight_needs_the_manifest() {
    let paths = run_paths();
    match check_paths(&paths, true, false, true) {
        Err(DotfilesError::DistributionNotFound(p)) => {
            assert_eq!(p, "/h/repos/dotfiles/distribution.toml")
        }
        other => panic!("unexpected: {:?}", other),
    }
}

#[test]
fn preflight_creates_the_config_directory() {
    let paths = run_paths();
    let warning = check_paths(&paths, true, true, false).unwrap().unwrap();
    assert_eq!(warning.severity, Severity::Warning);
    assert_eq!(warning.message, "Config directory not found, creating: /h/.config");
    assert!(check_paths(&paths, true, true, true).unwrap().is_none());
}

#[test]
fn section_opening() {
    let paths = run_paths();
    let start = process_section(&paths, "vim", true);
    assert_eq!(start.info.severity, Severity::Info);
    assert_eq!(start.info.message, "Processing tool: vim");
    assert_eq!(start.directory, "/h/.config/vim");
    assert!(start.creating.is_none());
    let start = process_section(&paths, "vim", false);
    let creating = start.creating.unwrap();
    assert_eq!(creating.severity, Severity::Warning);
    assert_eq!(creating.message, "Creating directory: /h/.config/vim");
}

#[test]
fn line_counts() {
    assert_eq!(count_lines(""), 0);
    assert_eq!(count_lines("a"), 1);
    assert_eq!(count_lines("a\n"), 1);
    assert_eq!(count_lines("a\nb"), 2);
    assert_eq!(count_lines("a\n\n"), 2);
    assert_eq!(count_lines("\n"), 1);
    assert_eq!(count_lines("[foo]\nfiles = [\"a\"]\n\n[bar]\nfiles = []\n"), 5);
}

#[test]
fn line_counts_agree_with_std() {
    let samples = ["", "\n", "\n\n\n", "x\ny\nz", "x\r\ny\r\n", "one line", "a\n\nb\n"];
    for s in samples {
        assert_eq!(count_lines(s), s.lines().count());
    }
}

#[test]
fn empty_manifest_precheck() {
    let content = "[_meta]\nversion = \"1\"";
    let manifest = Distribution {
        sections: vec![NamedSection {
            name: "_meta".to_string(),
            section: Section {
                files: Vec::new(),
                extras: vec![ExtraKey {
                    key: "version".to_string(),
                    value: toml::Value::String("1".to_string()),
                }],
            },
        }],
    };
    let summary = run_precheck(content, Ok(manifest)).unwrap();
    assert_eq!(summary.tool_count, 0);
    assert_eq!(summary.line_count, 2);
}

#[test]
fn precheck_counts_tools() {
    let mut manifest = Distribution::new();
    manifest.add("foo", "bar.conf");
    manifest.add("vim", "vimrc");
    manifest.add("_meta", "x");
    let summary = run_precheck("[foo]\nfiles = [\"bar.conf\"]\n", Ok(manifest)).unwrap();
    assert_eq!(summary.tool_count, 2);
    assert_eq!(summary.line_count, 2);
}

#[test]
fn precheck_reports_parse_failures() {
    match run_precheck("[foo", Err("unclosed table".to_string())) {
        Err(DotfilesError::DistributionParseError(msg)) => assert_eq!(msg, "unclosed table"),
        other => panic!("unexpected: {:?}", other),
    }
}

fn step_texts(steps: &[Step]) -> Vec<String> {
    steps
        .iter()
        .map(|s| match s {
            Step::Section(tool) => format!("[{}]", tool),
            Step::File(tool, file) => format!("{}/{}", tool, file),
        })
        .collect()
}

#[test]
fn run_goes_through_tools_and_files_in_order() {
    let mut manifest = Distribution::new();
    manifest.add("_meta", "hidden");
    manifest.add("vim", "vimrc");
    manifest.add("git", "config");
    manifest.add("vim", "colors/dark.vim");
    manifest.add("empty", "x");
    manifest.remove("empty", "x").unwrap();
    assert_eq!(
        step_texts(&plan_run(&manifest)),
        vec!["[vim]", "vim/vimrc", "vim/colors/dark.vim", "[git]", "git/config", "[empty]"]
    );
}

#[test]
fn run_over_an_empty_manifest_has_no_steps() {
    assert!(plan_run(&Distribution::new()).is_empty());
    let mut only_meta = Distribution::new();
    only_meta.add("_meta", "x");
    assert!(plan_run(&only_meta).is_empty());
}
