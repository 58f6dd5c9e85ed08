use dotfiles_rs::archive::{archive_key, ArchiveEntry, DotfilesArchive};

fn entry(key: &str, bytes: &[u8]) -> ArchiveEntry {
    ArchiveEntry { key: key.to_string(), bytes: bytes.to_vec() }
}

fn bundle() -> DotfilesArchive {
    DotfilesArchive {
        entries: vec![
            entry("distribution.toml", b"[foo]\nfiles = [\"bar.conf\"]\n"),
            entry(".dotignore", b"*token*\n"),
            entry("config/foo/bar.conf", b"hello"),
        ],
        build_identity: "20240102-01-030405".to_string(),
    }
}

#[test]
fn keys_of_tracked_files() {
    assert_eq!(archive_key("foo", "bar.conf"), "config/foo/bar.conf");
    assert_eq!(archive_key("foo", "sub/bar.conf"), "config/foo/sub/bar.conf");
}

#[test]
fn bundled_files_are_found_by_key() {
    let archive = bundle();
    assert_eq!(archive.file_bytes("config/foo/bar.conf"), Some(&b"hello".to_vec()));
    assert_eq!(archive.file_bytes(&archive_key("foo", "bar.conf")), Some(&b"hello".to_vec()));
    assert_eq!(archive.file_bytes("config/foo/other"), None);
    assert_eq!(archive.file_bytes("distribution.toml"), archive.distribution_bytes());
    assert_eq!(archive.file_bytes(".dotignore"), archive.dotignore_bytes());
    assert_eq!(archive.dotignore_bytes(), Some(&b"*token*\n".to_vec()));
}

#[test]
fn first_entry_of_a_key_wins() {
    let archive = DotfilesArchive {
        entries: vec![entry("k", b"one"), entry("k", b"two")],
        build_identity: String::new(),
    };
    assert_eq!(archive.file_bytes("k"), Some(&b"one".to_vec()));
}

#[test]
fn archive_without_tracked_files() {
    let bare = DotfilesArchive {
        entries: vec![entry("distribution.toml", b""), entry(".dotignore", b"")],
        build_identity: "00000000-00-000000".to_string(),
    };
    assert!(!bare.has_embedded_files());
    assert!(bundle().has_embedded_files());
    let empty = DotfilesArchive { entries: Vec::new(), build_identity: String::new() };
    assert!(!empty.has_embedded_files());
    assert_eq!(empty.distribution_bytes(), None);
    assert_eq!(empty.dotignore_bytes(), None);
}
