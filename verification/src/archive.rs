//! The embedded archive: a frozen snapshot of the manifest, the ignore
//! file and the tracked files, looked up by key. It is read-only.

use vstd::prelude::*;
use vstd::string::*;
use crate::text::{join, join_path};

verus! {

/// One bundled file.
#[derive(Debug)]
pub struct ArchiveEntry {
    pub key: String,
    pub bytes: Vec<u8>,
}

/// The bundle, with the identity of the build that made it.
#[derive(Debug)]
pub struct DotfilesArchive {
    pub entries: Vec<ArchiveEntry>,
    pub build_identity: String,
}

/// The bytes stored under `key`: those of the first entry with that key.
pub open spec fn stored(entries: Seq<(Seq<char>, Seq<u8>)>, key: Seq<char>) -> Option<Seq<u8>>
    decreases entries.len(),
{
    if entries.len() == 0 {
        None
    } else if entries[0].0 == key {
        Some(entries[0].1)
    } else {
        stored(entries.drop_first(), key)
    }
}

/// The key of a tracked file: `config/<section>/<file>`.
pub open spec fn tracked_key(section: Seq<char>, file: Seq<char>) -> Seq<char> {
    join_path(join_path("config"@, section), file)
}

/// A key that stands for a tracked file: any but those of the manifest and
/// of the ignore file.
pub open spec fn is_tracked_key(key: Seq<char>) -> bool {
    key != "distribution.toml"@ && key != ".dotignore"@
}

impl View for DotfilesArchive {
    type V = Seq<(Seq<char>, Seq<u8>)>;

    open spec fn view(&self) -> Seq<(Seq<char>, Seq<u8>)> {
        Seq::new(self.entries@.len(), |i: int| (self.entries@[i].key@, self.entries@[i].bytes@))
    }
}

/// The key under which a tracked file is bundled.
pub fn archive_key(section: &str, file: &str) -> (r: String)
    ensures
        r@ == tracked_key(section@, file@),
{
    let dir = join("config", section);
    join(dir.as_str(), file)
}

impl DotfilesArchive {
    /// The bundled copy of the file stored under `key`, if there is one.
    pub fn file_bytes(&self, key: &str) -> (r: Option<&Vec<u8>>)
        ensures
            match r {
                Some(bytes) => stored(self@, key@) == Some(bytes@),
                None => stored(self@, key@) is None,
            },
    {
        let wanted = key.to_owned();
        let mut i: usize = 0;
        assert(self@.skip(0) =~= self@);
        while i < self.entries.len()
            invariant
                i <= self.entries.len(),
                wanted@ == key@,
                stored(self@.skip(i as int), key@) == stored(self@, key@),
            decreases self.entries.len() - i,
        {
            let ghost rest = self@.skip(i as int);
            assert(rest[0] == self@[i as int]);
            assert(rest.drop_first() =~= self@.skip(i + 1));
            if self.entries[i].key == wanted {
                return Some(&self.entries[i].bytes);
            }
            i += 1;
        }
        None
    }

    /// The text of the bundled manifest.
    pub fn distribution_bytes(&self) -> (r: Option<&Vec<u8>>)
        ensures
            match r {
                Some(bytes) => stored(self@, "distribution.toml"@) == Some(bytes@),
                None => stored(self@, "distribution.toml"@) is None,
            },
    {
        self.file_bytes("distribution.toml")
    }

    /// The text of the bundled ignore file, if one was bundled.
    pub fn dotignore_bytes(&self) -> (r: Option<&Vec<u8>>)
        ensures
            match r {
                Some(bytes) => stored(self@, ".dotignore"@) == Some(bytes@),
                None => stored(self@, ".dotignore"@) is None,
            },
    {
        self.file_bytes(".dotignore")
    }

    /// Whether the archive holds any tracked file.
    pub fn has_embedded_files(&self) -> (r: bool)
        ensures
            r == exists|i: int| 0 <= i < self@.len() && is_tracked_key(#[trigger] self@[i].0),
    {
        let manifest_key = "distribution.toml".to_owned();
        let ignore_key = ".dotignore".to_owned();
        let mut i: usize = 0;
        while i < self.entries.len()
            invariant
                i <= self.entries.len(),
                manifest_key@ == "distribution.toml"@,
                ignore_key@ == ".dotignore"@,
                forall|j: int| 0 <= j < i ==> !is_tracked_key(#[trigger] self@[j].0),
            decreases self.entries.len() - i,
        {
            if !(self.entries[i].key == manifest_key) && !(self.entries[i].key == ignore_key) {
                assert(is_tracked_key(self@[i as int].0));
                return true;
            }
            i += 1;
        }
        false
    }
}

} // verus!
