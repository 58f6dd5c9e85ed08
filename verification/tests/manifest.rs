use dotfiles_rs::error::DotfilesError;
use dotfiles_rs::manifest::{
    contains_string, strings_without, Distribution, ExtraKey, NamedSection, Section,
};
use dotfiles_rs::store::{DistributionParser, DistributionSource};

fn section(name: &str, files: &[&str]) -> NamedSection {
    NamedSection {
        name: name.to_string(),
        section: Section { files: files.iter().map(|f| f.to_string()).collect(), extras: Vec::new() },
    }
}

fn meta_section() -> NamedSection {
    NamedSection {
        name: "_meta".to_string(),
        section: Section {
            files: Vec::new(),
            extras: vec![ExtraKey {
                key: "version".to_string(),
                value: toml::Value::String("1".to_string()),
            }],
        },
    }
}

fn sample() -> Distribution {
    Distribution {
        sections: vec![
            meta_section(),
            section("vim", &["vimrc", "colors/dark.vim"]),
            section("git", &["config"]),
        ],
    }
}

fn entries(d: &Distribution) -> Vec<(String, Vec<String>)> {
    d.sections.iter().map(|s| (s.name.clone(), s.section.files.clone())).collect()
}

#[test]
fn new_manifest_is_empty() {
    let d = Distribution::new();
    assert!(d.sections.is_empty());
    assert!(d.tools().is_empty());
    assert!(d.files("vim").is_empty());
}

#[test]
fn tools_leave_out_metadata_sections() {
    let d = sample();
    assert_eq!(d.tools(), vec!["vim", "git"]);
    let only_meta = Distribution { sections: vec![meta_section()] };
    assert!(only_meta.tools().is_empty());
}

#[test]
fn files_keep_declared_order() {
    let d = sample();
    assert_eq!(d.files("vim"), vec!["vimrc", "colors/dark.vim"]);
    assert_eq!(d.files("git"), vec!["config"]);
    assert!(d.files("emacs").is_empty());
    assert!(d.files("_meta").is_empty());
}

#[test]
fn find_section_gives_the_first_position() {
    let d = sample();
    assert_eq!(d.find_section("_meta"), Some(0));
    assert_eq!(d.find_section("git"), Some(2));
    assert_eq!(d.find_section("gi"), None);
}

#[test]
fn add_creates_the_section() {
    let mut d = Distribution::new();
    d.add("foo", "bar.conf");
    assert_eq!(entries(&d), vec![("foo".to_string(), vec!["bar.conf".to_string()])]);
}

#[test]
fn add_appends_to_an_existing_section() {
    let mut d = sample();
    d.add("vim", "gvimrc");
    assert_eq!(d.files("vim"), vec!["vimrc", "colors/dark.vim", "gvimrc"]);
    assert_eq!(d.files("git"), vec!["config"]);
    assert_eq!(d.sections.len(), 3);
}

#[test]
fn add_is_idempotent() {
    let mut once = sample();
    once.add("vim", "gvimrc");
    let mut twice = sample();
    twice.add("vim", "gvimrc");
    twice.add("vim", "gvimrc");
    assert_eq!(entries(&once), entries(&twice));
    let mut fresh = Distribution::new();
    fresh.add("foo", "a");
    fresh.add("foo", "a");
    assert_eq!(entries(&fresh), vec![("foo".to_string(), vec!["a".to_string()])]);
}

#[test]
fn add_of_a_listed_file_changes_nothing() {
    let mut d = sample();
    d.add("vim", "vimrc");
    assert_eq!(entries(&d), entries(&sample()));
}

#[test]
fn remove_drops_the_file_and_keeps_the_section() {
    let mut d = sample();
    assert!(d.remove("git", "config").is_ok());
    assert_eq!(d.find_section("git"), Some(2));
    assert!(d.files("git").is_empty());
    assert_eq!(d.files("vim"), vec!["vimrc", "colors/dark.vim"]);
}

#[test]
fn remove_is_idempotent() {
    let mut once = sample();
    once.remove("vim", "vimrc").unwrap();
    let mut twice = sample();
    twice.remove("vim", "vimrc").unwrap();
    twice.remove("vim", "vimrc").unwrap();
    assert_eq!(entries(&once), entries(&twice));
    assert_eq!(once.files("vim"), vec!["colors/dark.vim"]);
}

#[test]
fn remove_of_an_absent_file_is_no_error() {
    let mut d = sample();
    assert!(d.remove("vim", "nothing").is_ok());
    assert_eq!(entries(&d), entries(&sample()));
}

#[test]
fn remove_drops_every_occurrence() {
    let mut d = Distribution { sections: vec![section("t", &["a", "b", "a", "c", "a"])] };
    d.remove("t", "a").unwrap();
    assert_eq!(d.files("t"), vec!["b", "c"]);
}

#[test]
fn remove_from_an_unknown_tool_fails() {
    let mut d = sample();
    match d.remove("emacs", "init.el") {
        Err(DotfilesError::InvalidCommand(msg)) => assert_eq!(msg, "Tool 'emacs' not found"),
        other => panic!("unexpected: {:?}", other),
    }
    assert_eq!(entries(&d), entries(&sample()));
}

#[test]
fn metadata_survives_edits() {
    let mut d = sample();
    d.add("vim", "gvimrc");
    d.add("tmux", "tmux.conf");
    d.remove("git", "config").unwrap();
    assert_eq!(d.find_section("_meta"), Some(0));
    let meta = &d.sections[0];
    assert!(meta.section.files.is_empty());
    assert_eq!(meta.section.extras.len(), 1);
    assert_eq!(meta.section.extras[0].key, "version");
    assert_eq!(meta.section.extras[0].value, toml::Value::String("1".to_string()));
    assert_eq!(d.tools(), vec!["vim", "git", "tmux"]);
}

#[test]
fn extras_of_an_edited_section_stay() {
    let mut d = Distribution {
        sections: vec![NamedSection {
            name: "vim".to_string(),
            section: Section {
                files: vec!["vimrc".to_string()],
                extras: vec![ExtraKey { key: "note".to_string(), value: toml::Value::Integer(7) }],
            },
        }],
    };
    d.add("vim", "gvimrc");
    d.remove("vim", "vimrc").unwrap();
    assert_eq!(d.files("vim"), vec!["gvimrc"]);
    assert_eq!(d.sections[0].section.extras[0].key, "note");
    assert_eq!(d.sections[0].section.extras[0].value, toml::Value::Integer(7));
}

#[test]
fn string_list_helpers() {
    let list = vec!["a".to_string(), "b".to_string(), "a".to_string()];
    assert!(contains_string(&list, &"b".to_string()));
    assert!(!contains_string(&list, &"c".to_string()));
    assert_eq!(strings_without(&list, &"a".to_string()), vec!["b"]);
    assert_eq!(strings_without(&list, &"z".to_string()), vec!["a", "b", "a"]);
}

#[test]
fn store_constructors() {
    let file = DistributionParser::new("/repo/distribution.toml".to_string());
    match &file.source {
        DistributionSource::File(path) => assert_eq!(path, "/repo/distribution.toml"),
        DistributionSource::Embedded => panic!("expected a file source"),
    }
    assert!(matches!(DistributionParser::from_embedded().source, DistributionSource::Embedded));
}

#[test]
fn store_reads_in_both_modes() {
    let d = sample();
    let file = DistributionParser::new("/repo/distribution.toml".to_string());
    let embedded = DistributionParser::from_embedded();
    assert_eq!(file.get_tools(&d), vec!["vim", "git"]);
    assert_eq!(embedded.get_tools(&d), vec!["vim", "git"]);
    assert_eq!(file.get_files(&d, "vim"), vec!["vimrc", "colors/dark.vim"]);
    assert_eq!(embedded.get_files(&d, "git"), vec!["config"]);
    assert!(embedded.get_files(&d, "none").is_empty());
}

#[test]
fn store_maps_parse_failures() {
    let store = DistributionParser::new("/repo/distribution.toml".to_string());
    match store.read_distribution(Err("expected `=`".to_string())) {
        Err(DotfilesError::DistributionParseError(msg)) => assert_eq!(msg, "expected `=`"),
        other => panic!("unexpected: {:?}", other),
    }
    let read = store.read_distribution(Ok(sample())).unwrap();
    assert_eq!(entries(&read), entries(&sample()));
}

#[test]
fn store_add_starts_from_empty_when_nothing_was_read() {
    let store = DistributionParser::new("/repo/distribution.toml".to_string());
    let d = store.add_file(None, "foo", "bar.conf").unwrap();
    assert_eq!(entries(&d), vec![("foo".to_string(), vec!["bar.conf".to_string()])]);
    let d = store.add_file(Some(sample()), "git", "ignore").unwrap();
    assert_eq!(d.files("git"), vec!["config", "ignore"]);
    assert_eq!(d.find_section("_meta"), Some(0));
}

#[test]
fn embedded_store_refuses_writes() {
    let store = DistributionParser::from_embedded();
    match store.add_file(Some(sample()), "vim", "x") {
        Err(DotfilesError::InvalidCommand(msg)) => {
            assert_eq!(msg, "Cannot modify distribution file in embedded mode")
        }
        other => panic!("unexpected: {:?}", other),
    }
    match store.remove_file(sample(), "vim", "vimrc") {
        Err(DotfilesError::InvalidCommand(msg)) => {
            assert_eq!(msg, "Cannot modify distribution file in embedded mode")
        }
        other => panic!("unexpected: {:?}", other),
    }
    match store.remove_file(sample(), "emacs", "init.el") {
        Err(DotfilesError::InvalidCommand(msg)) => assert_eq!(msg, "Tool 'emacs' not found"),
        other => panic!("unexpected: {:?}", other),
    }
}

#[test]
fn store_remove_writes_back_the_rest() {
    let store = DistributionParser::new("/repo/distribution.toml".to_string());
    let d = store.remove_file(sample(), "vim", "vimrc").unwrap();
    assert_eq!(d.files("vim"), vec!["colors/dark.vim"]);
    match store.remove_file(sample(), "emacs", "init.el") {
        Err(DotfilesError::InvalidCommand(msg)) => assert_eq!(msg, "Tool 'emacs' not found"),
        other => panic!("unexpected: {:?}", other),
    }
}
