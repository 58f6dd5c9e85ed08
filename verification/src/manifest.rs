//! The manifest as a value: named sections, each with an ordered list of
//! file names, and what adding and removing an entry mean.

use vstd::prelude::*;
use vstd::string::*;
use toml::Value;
use crate::error::DotfilesError;
use crate::text::{clone_strings, has_metadata_name, is_metadata_name, texts};

verus! {

/// `toml::Value`, a value of a TOML document. The library carries such
/// values along and never looks into them.
#[verifier::external_type_specification]
#[verifier::external_body]
pub struct ExValue(toml::Value);

/// A key of a section other than `files`, kept so that it is written back
/// as it was read. Its value is never looked into.
#[derive(Debug)]
pub struct ExtraKey {
    pub key: String,
    pub value: Value,
}

/// The record of one section.
#[derive(Debug)]
pub struct Section {
    /// The files under management, in declared order.
    pub files: Vec<String>,
    /// Every other key found in the section.
    pub extras: Vec<ExtraKey>,
}

/// A section together with its name.
#[derive(Debug)]
pub struct NamedSection {
    pub name: String,
    pub section: Section,
}

/// The manifest: its sections in the order in which they are kept.
#[derive(Debug)]
pub struct Distribution {
    pub sections: Vec<NamedSection>,
}

/// What a section is, as mathematics.
pub struct SectionModel {
    pub name: Seq<char>,
    pub files: Seq<Seq<char>>,
    pub extras: Seq<(Seq<char>, Value)>,
}

/// The index of the first section called `name`, or the number of sections
/// when there is none.
pub open spec fn section_index(m: Seq<SectionModel>, name: Seq<char>) -> int
    decreases m.len(),
{
    if m.len() == 0 || m[0].name == name {
        0
    } else {
        1 + section_index(m.drop_first(), name)
    }
}

/// Whether the manifest has a section called `name`.
pub open spec fn has_section(m: Seq<SectionModel>, name: Seq<char>) -> bool {
    section_index(m, name) < m.len()
}

/// The files of the section called `name`; none when there is no such
/// section.
pub open spec fn files_of(m: Seq<SectionModel>, name: Seq<char>) -> Seq<Seq<char>> {
    if has_section(m, name) {
        m[section_index(m, name)].files
    } else {
        Seq::empty()
    }
}

/// The names of the sections that stand for tools: all but those that
/// begin with an underscore, in manifest order.
pub open spec fn tool_names(m: Seq<SectionModel>) -> Seq<Seq<char>> {
    m.map_values(|s: SectionModel| s.name).filter(|n: Seq<char>| !is_metadata_name(n))
}

/// A file list with `file` at its end, unless it already holds it.
pub open spec fn with_file(files: Seq<Seq<char>>, file: Seq<char>) -> Seq<Seq<char>> {
    if files.contains(file) {
        files
    } else {
        files.push(file)
    }
}

/// A file list without any occurrence of `file`.
pub open spec fn without_file(files: Seq<Seq<char>>, file: Seq<char>) -> Seq<Seq<char>> {
    files.filter(|f: Seq<char>| f != file)
}

/// The manifest after `file` is added to `tool`: the section is created at
/// the end when it is missing, and the file is appended unless the section
/// already lists it. Nothing else changes.
pub open spec fn add_entry(m: Seq<SectionModel>, tool: Seq<char>, file: Seq<char>) -> Seq<
    SectionModel,
> {
    let i = section_index(m, tool);
    if has_section(m, tool) {
        m.update(i, SectionModel { files: with_file(m[i].files, file), ..m[i] })
    } else {
        m.push(SectionModel { name: tool, files: seq![file], extras: Seq::empty() })
    }
}

/// The manifest after `file` is removed from `tool`: the section stays,
/// without the file. A manifest without that section is left as it is.
pub open spec fn remove_entry(m: Seq<SectionModel>, tool: Seq<char>, file: Seq<char>) -> Seq<
    SectionModel,
> {
    let i = section_index(m, tool);
    if has_section(m, tool) {
        m.update(i, SectionModel { files: without_file(m[i].files, file), ..m[i] })
    } else {
        m
    }
}

/// No two sections share a name.
pub open spec fn unique_names(m: Seq<SectionModel>) -> bool {
    forall|i: int, j: int| 0 <= i < j < m.len() ==> (#[trigger] m[i]).name != (#[trigger] m[j]).name
}

/// No section lists a file twice.
pub open spec fn unique_files(m: Seq<SectionModel>) -> bool {
    forall|i: int| 0 <= i < m.len() ==> (#[trigger] m[i]).files.no_duplicates()
}

/// The text of the error for a tool that the manifest does not have.
pub open spec fn tool_not_found_text(tool: Seq<char>) -> Seq<char> {
    "Tool '"@ + tool + "' not found"@
}

/// The first section called `name` is at `k` when no earlier section has
/// that name and the one at `k`, if there is one, has it.
pub proof fn lemma_section_index_at(m: Seq<SectionModel>, name: Seq<char>, k: int)
    requires
        0 <= k <= m.len(),
        forall|j: int| 0 <= j < k ==> (#[trigger] m[j]).name != name,
        k == m.len() || m[k].name == name,
    ensures
        section_index(m, name) == k,
    decreases k,
{
    if k > 0 {
        let t = m.drop_first();
        assert forall|j: int| 0 <= j < k - 1 implies (#[trigger] t[j]).name != name by {
            assert(t[j] == m[j + 1]);
        }
        lemma_section_index_at(t, name, k - 1);
    }
}

/// What `section_index` finds: no earlier section has the name, and the
/// section it points at, if any, has it.
pub proof fn lemma_section_index(m: Seq<SectionModel>, name: Seq<char>)
    ensures
        0 <= section_index(m, name) <= m.len(),
        forall|j: int| 0 <= j < section_index(m, name) ==> (#[trigger] m[j]).name != name,
        section_index(m, name) < m.len() ==> m[section_index(m, name)].name == name,
    decreases m.len(),
{
    if m.len() > 0 && m[0].name != name {
        let t = m.drop_first();
        lemma_section_index(t, name);
        assert forall|j: int| 0 <= j < section_index(m, name) implies (#[trigger] m[j]).name
            != name by {
            if j > 0 {
                assert(m[j] == t[j - 1]);
            }
        }
    }
}

/// Changing the files of a section moves no section.
pub proof fn lemma_index_after_update(
    m: Seq<SectionModel>,
    i: int,
    files: Seq<Seq<char>>,
    name: Seq<char>,
)
    requires
        0 <= i < m.len(),
    ensures
        section_index(m.update(i, SectionModel { files, ..m[i] }), name) == section_index(m, name),
{
    let n = m.update(i, SectionModel { files, ..m[i] });
    lemma_section_index(m, name);
    let k = section_index(m, name);
    assert forall|j: int| 0 <= j < k implies (#[trigger] n[j]).name != name by {
        assert(m[j].name != name);
    }
    lemma_section_index_at(n, name, k);
}

/// Taking a file out of a list leaves a list without it, keeps every
/// other file, and changes nothing when done again.
pub proof fn lemma_without_file_twice(files: Seq<Seq<char>>, file: Seq<char>)
    ensures
        without_file(without_file(files, file), file) == without_file(files, file),
        !without_file(files, file).contains(file),
        forall|g: Seq<char>| g != file ==> without_file(files, file).contains(g) == files.contains(g),
    decreases files.len(),
{
    reveal(Seq::filter);
    let pred = |f: Seq<char>| f != file;
    if files.len() > 0 {
        let rest = files.drop_last();
        lemma_without_file_twice(rest, file);
        let r = without_file(rest, file);
        let out = without_file(files, file);
        if pred(files.last()) {
            assert(out == r.push(files.last()));
            assert(out.drop_last() =~= r);
            assert(out.last() == files.last());
            assert(without_file(out, file) == without_file(r, file).push(files.last()));
        }
        assert(!out.contains(file)) by {
            if out.contains(file) {
                let j = choose|j: int| 0 <= j < out.len() && out[j] == file;
                if pred(files.last()) && j < r.len() {
                    assert(r[j] == file);
                    assert(r.contains(file));
                } else if !pred(files.last()) {
                    assert(r.contains(file));
                }
            }
        }
        assert forall|g: Seq<char>| g != file implies out.contains(g) == files.contains(g) by {
            assert(r.contains(g) == rest.contains(g));
            if files.contains(g) {
                let j = choose|j: int| 0 <= j < files.len() && files[j] == g;
                if j < rest.len() {
                    assert(rest[j] == g);
                    assert(rest.contains(g));
                    let k = choose|k: int| 0 <= k < r.len() && r[k] == g;
                    if pred(files.last()) {
                        assert(out[k] == g);
                    }
                } else {
                    assert(out.last() == g);
                }
            }
            if out.contains(g) {
                let j = choose|j: int| 0 <= j < out.len() && out[j] == g;
                if pred(files.last()) && j == out.len() - 1 {
                    assert(files[files.len() - 1] == g);
                } else {
                    assert(r[j] == g);
                    assert(r.contains(g));
                    let k = choose|k: int| 0 <= k < rest.len() && rest[k] == g;
                    assert(files[k] == g);
                }
            }
        }
    } else {
        assert forall|g: Seq<char>| g != file implies without_file(files, file).contains(g)
            == files.contains(g) by {}
    }
}

/// Adding an entry twice leaves the manifest as adding it once does.
pub proof fn lemma_add_idempotent(m: Seq<SectionModel>, tool: Seq<char>, file: Seq<char>)
    ensures
        add_entry(add_entry(m, tool, file), tool, file) == add_entry(m, tool, file),
{
    let once = add_entry(m, tool, file);
    let i = section_index(m, tool);
    lemma_section_index(m, tool);
    if has_section(m, tool) {
        let files = with_file(m[i].files, file);
        lemma_index_after_update(m, i, files, tool);
        if !m[i].files.contains(file) {
            assert(files[files.len() - 1] == file);
        }
        assert(files.contains(file));
        assert(add_entry(once, tool, file) =~= once);
    } else {
        lemma_section_index_at(once, tool, m.len() as int);
        assert(seq![file][0] == file);
        assert(seq![file].contains(file));
        assert(add_entry(once, tool, file) =~= once);
    }
}

/// Removing an entry twice leaves the manifest as removing it once does.
pub proof fn lemma_remove_idempotent(m: Seq<SectionModel>, tool: Seq<char>, file: Seq<char>)
    ensures
        remove_entry(remove_entry(m, tool, file), tool, file) == remove_entry(m, tool, file),
{
    let once = remove_entry(m, tool, file);
    let i = section_index(m, tool);
    lemma_section_index(m, tool);
    if has_section(m, tool) {
        lemma_index_after_update(m, i, without_file(m[i].files, file), tool);
        lemma_without_file_twice(m[i].files, file);
        assert(remove_entry(once, tool, file) =~= once);
    }
}

/// Adding an entry changes one file list and nothing else: the section of
/// the tool gains the file at its end unless it had it, every section that
/// was there is still there, and every other section keeps its files.
pub proof fn lemma_add_keeps_other_entries(
    m: Seq<SectionModel>,
    tool: Seq<char>,
    file: Seq<char>,
    other: Seq<char>,
)
    ensures
        has_section(add_entry(m, tool, file), tool),
        files_of(add_entry(m, tool, file), tool) == with_file(files_of(m, tool), file),
        has_section(m, other) ==> has_section(add_entry(m, tool, file), other),
        other != tool ==> has_section(add_entry(m, tool, file), other) == has_section(m, other),
        other != tool ==> files_of(add_entry(m, tool, file), other) == files_of(m, other),
{
    let after = add_entry(m, tool, file);
    let i = section_index(m, tool);
    lemma_section_index(m, tool);
    lemma_section_index(m, other);
    if has_section(m, tool) {
        let files = with_file(m[i].files, file);
        lemma_index_after_update(m, i, files, tool);
        lemma_index_after_update(m, i, files, other);
    } else {
        lemma_section_index_at(after, tool, m.len() as int);
        assert(Seq::<Seq<char>>::empty().push(file) =~= seq![file]);
        let k = section_index(m, other);
        if other != tool {
            assert forall|j: int| 0 <= j < k implies (#[trigger] after[j]).name != other by {
                assert(m[j].name != other);
            }
            if k < m.len() {
                assert(after[k] == m[k]);
            }
            lemma_section_index_at(after, other, if k < m.len() { k } else { k + 1 });
        }
    }
}

/// Removing an entry changes one file list and nothing else: the section
/// of the tool loses the file and keeps every other file of its list, the
/// sections are those that were there, and every other section keeps its
/// files.
pub proof fn lemma_remove_keeps_other_entries(
    m: Seq<SectionModel>,
    tool: Seq<char>,
    file: Seq<char>,
    other: Seq<char>,
)
    ensures
        files_of(remove_entry(m, tool, file), tool) == without_file(files_of(m, tool), file),
        !files_of(remove_entry(m, tool, file), tool).contains(file),
        forall|g: Seq<char>|
            g != file ==> files_of(remove_entry(m, tool, file), tool).contains(g) == files_of(
                m,
                tool,
            ).contains(g),
        has_section(remove_entry(m, tool, file), other) == has_section(m, other),
        other != tool ==> files_of(remove_entry(m, tool, file), other) == files_of(m, other),
{
    lemma_without_file_twice(files_of(m, tool), file);
    let i = section_index(m, tool);
    lemma_section_index(m, tool);
    lemma_section_index(m, other);
    if has_section(m, tool) {
        let files = without_file(m[i].files, file);
        lemma_index_after_update(m, i, files, tool);
        lemma_index_after_update(m, i, files, other);
    } else {
        reveal(Seq::filter);
        assert(without_file(Seq::<Seq<char>>::empty(), file) =~= Seq::<Seq<char>>::empty());
    }
}

/// Metadata sections are never listed as tools, and every section that is
/// no metadata section is.
pub proof fn lemma_tool_names(m: Seq<SectionModel>, name: Seq<char>)
    ensures
        tool_names(m).contains(name) == (has_section(m, name) && !is_metadata_name(name)),
{
    broadcast use vstd::seq_lib::group_filter_ensures;

    let names = m.map_values(|s: SectionModel| s.name);
    let pred = |n: Seq<char>| !is_metadata_name(n);
    lemma_section_index(m, name);
    if tool_names(m).contains(name) {
        let j = choose|j: int| 0 <= j < tool_names(m).len() && tool_names(m)[j] == name;
        names.lemma_filter_pred(pred, j);
        names.lemma_filter_contains_rev(pred, name);
        let k = choose|k: int| 0 <= k < names.len() && names[k] == name;
        assert(m[k].name == name);
    }
    if has_section(m, name) && !is_metadata_name(name) {
        let k = section_index(m, name);
        assert(names[k] == name);
        names.lemma_filter_contains(pred, k);
    }
}

/// A metadata section survives every edit: it is never listed as a tool,
/// it is still in the manifest after an entry is added or removed, and an
/// edit of another section leaves its files as they were.
pub proof fn lemma_metadata_preserved(
    m: Seq<SectionModel>,
    meta: Seq<char>,
    tool: Seq<char>,
    file: Seq<char>,
)
    requires
        is_metadata_name(meta),
        has_section(m, meta),
    ensures
        !tool_names(m).contains(meta),
        !tool_names(add_entry(m, tool, file)).contains(meta),
        !tool_names(remove_entry(m, tool, file)).contains(meta),
        has_section(add_entry(m, tool, file), meta),
        has_section(remove_entry(m, tool, file), meta),
        meta != tool ==> files_of(add_entry(m, tool, file), meta) == files_of(m, meta),
        meta != tool ==> files_of(remove_entry(m, tool, file), meta) == files_of(m, meta),
{
    lemma_tool_names(m, meta);
    lemma_tool_names(add_entry(m, tool, file), meta);
    lemma_tool_names(remove_entry(m, tool, file), meta);
    lemma_add_keeps_other_entries(m, tool, file, meta);
    lemma_remove_keeps_other_entries(m, tool, file, meta);
}

/// A list that holds no file twice still holds none twice once a file is
/// taken out of it.
pub proof fn lemma_without_file_unique(files: Seq<Seq<char>>, file: Seq<char>)
    requires
        files.no_duplicates(),
    ensures
        without_file(files, file).no_duplicates(),
    decreases files.len(),
{
    reveal(Seq::filter);
    if files.len() > 0 {
        let rest = files.drop_last();
        let last = files.last();
        assert forall|i: int, j: int| 0 <= i < rest.len() && 0 <= j < rest.len() && i != j implies rest[i]
            != rest[j] by {
            assert(rest[i] == files[i] && rest[j] == files[j]);
        }
        lemma_without_file_unique(rest, file);
        lemma_without_file_twice(rest, file);
        let kept = without_file(rest, file);
        if last != file {
            assert(kept.contains(last) == rest.contains(last));
            if rest.contains(last) {
                let j = choose|j: int| 0 <= j < rest.len() && rest[j] == last;
                assert(files[j] == files[files.len() - 1]);
            }
            assert(!kept.contains(last));
            assert(without_file(files, file) == kept.push(last));
            assert forall|i: int, j: int|
                0 <= i < kept.len() + 1 && 0 <= j < kept.len() + 1 && i != j implies kept.push(last)[i]
                != kept.push(last)[j] by {
                if i < kept.len() && j < kept.len() {
                } else if i < kept.len() {
                    assert(kept.contains(kept[i]));
                } else {
                    assert(kept.contains(kept[j]));
                }
            }
        }
    }
}

/// Edits keep a manifest in order: when no file is listed twice in a
/// section before an entry is added or removed, none is afterwards.
pub proof fn lemma_edits_keep_files_unique(m: Seq<SectionModel>, tool: Seq<char>, file: Seq<char>)
    requires
        unique_files(m),
    ensures
        unique_files(add_entry(m, tool, file)),
        unique_files(remove_entry(m, tool, file)),
{
    lemma_section_index(m, tool);
    let a = add_entry(m, tool, file);
    let r = remove_entry(m, tool, file);
    let k = section_index(m, tool);
    assert forall|i: int| 0 <= i < a.len() implies (#[trigger] a[i]).files.no_duplicates() by {
        if has_section(m, tool) {
            if i != k {
                assert(a[i] == m[i]);
            } else {
                assert(m[k].files.no_duplicates());
            }
        } else if i < m.len() {
            assert(a[i] == m[i]);
        }
    }
    assert forall|i: int| 0 <= i < r.len() implies (#[trigger] r[i]).files.no_duplicates() by {
        if has_section(m, tool) && i == k {
            assert(m[k].files.no_duplicates());
            lemma_without_file_unique(m[k].files, file);
        } else {
            assert(r[i] == m[i]);
        }
    }
}

/// Edits keep section names unique.
pub proof fn lemma_edits_keep_names_unique(m: Seq<SectionModel>, tool: Seq<char>, file: Seq<char>)
    requires
        unique_names(m),
    ensures
        unique_names(add_entry(m, tool, file)),
        unique_names(remove_entry(m, tool, file)),
{
    lemma_section_index(m, tool);
    let a = add_entry(m, tool, file);
    assert forall|i: int, j: int| 0 <= i < j < a.len() implies (#[trigger] a[i]).name != (
    #[trigger] a[j]).name by {
        if has_section(m, tool) {
            assert(a[i].name == m[i].name && a[j].name == m[j].name);
        } else if j < m.len() {
            assert(a[i] == m[i] && a[j] == m[j]);
        } else {
            assert(a[i] == m[i]);
        }
    }
    let r = remove_entry(m, tool, file);
    assert forall|i: int, j: int| 0 <= i < j < r.len() implies (#[trigger] r[i]).name != (
    #[trigger] r[j]).name by {
        assert(r[i].name == m[i].name && r[j].name == m[j].name);
    }
}

impl ExtraKey {
    /// The key as text, with its value.
    pub open spec fn model(&self) -> (Seq<char>, Value) {
        (self.key@, self.value)
    }
}

impl NamedSection {
    /// The section as mathematics.
    pub open spec fn model(&self) -> SectionModel {
        SectionModel {
            name: self.name@,
            files: texts(self.section.files@),
            extras: Seq::new(
                self.section.extras@.len(),
                |i: int| self.section.extras@[i].model(),
            ),
        }
    }
}

impl View for Distribution {
    type V = Seq<SectionModel>;

    open spec fn view(&self) -> Seq<SectionModel> {
        Seq::new(self.sections@.len(), |i: int| self.sections@[i].model())
    }
}

impl Distribution {
    /// A manifest without sections.
    pub fn new() -> (r: Distribution)
        ensures
            r@ == Seq::<SectionModel>::empty(),
            r.well_formed(),
    {
        let r = Distribution { sections: Vec::new() };
        assert(r@ =~= Seq::<SectionModel>::empty());
        r
    }

    /// The position of the first section called `tool`.
    pub fn find_section(&self, tool: &str) -> (r: Option<usize>)
        ensures
            match r {
                Some(i) => has_section(self@, tool@) && i == section_index(self@, tool@),
                None => !has_section(self@, tool@),
            },
    {
        let wanted = tool.to_owned();
        let mut i: usize = 0;
        while i < self.sections.len()
            invariant
                i <= self.sections.len(),
                wanted@ == tool@,
                forall|j: int| 0 <= j < i ==> (#[trigger] self@[j]).name != tool@,
            decreases self.sections.len() - i,
        {
            if self.sections[i].name == wanted {
                proof {
                    assert(self@[i as int].name == tool@);
                    lemma_section_index_at(self@, tool@, i as int);
                }
                return Some(i);
            }
            assert(self@[i as int].name != tool@);
            i += 1;
        }
        proof {
            lemma_section_index_at(self@, tool@, i as int);
        }
        None
    }

    /// The names of the tools: every section name that does not begin with
    /// an underscore, in manifest order.
    pub fn tools(&self) -> (r: Vec<String>)
        ensures
            texts(r@) == tool_names(self@),
    {
        let ghost names = self@.map_values(|s: SectionModel| s.name);
        let ghost pred = |n: Seq<char>| !is_metadata_name(n);
        let mut out: Vec<String> = Vec::new();
        let mut i: usize = 0;
        proof {
            reveal(Seq::filter);
            assert(names.take(0).filter(pred) =~= Seq::<Seq<char>>::empty());
            assert(texts(out@) =~= Seq::<Seq<char>>::empty());
        }
        while i < self.sections.len()
            invariant
                i <= self.sections.len(),
                names == self@.map_values(|s: SectionModel| s.name),
                pred == |n: Seq<char>| !is_metadata_name(n),
                texts(out@) == names.take(i as int).filter(pred),
            decreases self.sections.len() - i,
        {
            let ghost before = texts(out@);
            let keep = !has_metadata_name(self.sections[i].name.as_str());
            if keep {
                out.push(self.sections[i].name.clone());
            }
            proof {
                reveal(Seq::filter);
                let name = self@[i as int].name;
                assert(names[i as int] == name);
                assert(names.take(i + 1).drop_last() =~= names.take(i as int));
                assert(names.take(i + 1).last() == name);
                if keep {
                    assert(texts(out@) =~= before.push(name));
                } else {
                    assert(texts(out@) =~= before);
                }
            }
            i += 1;
        }
        assert(names.take(i as int) =~= names);
        out
    }

    /// The files of a tool, in declared order; none when the manifest has
    /// no such section.
    pub fn files(&self, tool: &str) -> (r: Vec<String>)
        ensures
            texts(r@) == files_of(self@, tool@),
    {
        match self.find_section(tool) {
            Some(i) => clone_strings(&self.sections[i].section.files),
            None => {
                let r: Vec<String> = Vec::new();
                assert(texts(r@) =~= Seq::<Seq<char>>::empty());
                r
            },
        }
    }

    /// Records `file` under `tool`. The section is created when it is
    /// missing; a file that is already listed is not listed again.
    pub fn add(&mut self, tool: &str, file: &str)
        ensures
            final(self)@ == add_entry(old(self)@, tool@, file@),
            old(self).well_formed() ==> final(self).well_formed(),
    {
        let ghost before = self@;
        proof {
            if unique_names(before) && unique_files(before) {
                lemma_edits_keep_names_unique(before, tool@, file@);
                lemma_edits_keep_files_unique(before, tool@, file@);
            }
        }
        match self.find_section(tool) {
            Some(i) => {
                let mut entry = self.sections.remove(i);
                assert(entry.model() == before[i as int]);
                let ghost listed = texts(entry.section.files@);
                let wanted = file.to_owned();
                if !contains_string(&entry.section.files, &wanted) {
                    entry.section.files.push(wanted);
                    assert(texts(entry.section.files@) =~= listed.push(file@));
                }
                assert(entry.model().extras =~= before[i as int].extras);
                self.sections.insert(i, entry);
                assert(self@ =~= add_entry(before, tool@, file@));
            },
            None => {
                let mut files: Vec<String> = Vec::new();
                files.push(file.to_owned());
                let entry = NamedSection {
                    name: tool.to_owned(),
                    section: Section { files, extras: Vec::new() },
                };
                assert(entry.model().files =~= seq![file@]);
                assert(entry.model().extras =~= Seq::empty());
                self.sections.push(entry);
                assert(self@ =~= add_entry(before, tool@, file@));
            },
        }
    }

    /// Takes `file` out of the list of `tool`. The section stays, even
    /// when it becomes empty, and a file that is not listed is no error.
    /// Without such a section the manifest is left as it is and the tool is
    /// reported as not found.
    pub fn remove(&mut self, tool: &str, file: &str) -> (r: Result<(), DotfilesError>)
        ensures
            final(self)@ == remove_entry(old(self)@, tool@, file@),
            has_section(old(self)@, tool@) ==> r is Ok,
            !has_section(old(self)@, tool@) ==> (r matches Err(DotfilesError::InvalidCommand(msg))
                && msg@ == tool_not_found_text(tool@)),
            old(self).well_formed() ==> final(self).well_formed(),
    {
        let ghost before = self@;
        proof {
            if unique_names(before) && unique_files(before) {
                lemma_edits_keep_names_unique(before, tool@, file@);
                lemma_edits_keep_files_unique(before, tool@, file@);
            }
        }
        match self.find_section(tool) {
            Some(i) => {
                let mut entry = self.sections.remove(i);
                assert(entry.model() == before[i as int]);
                let wanted = file.to_owned();
                let kept = strings_without(&entry.section.files, &wanted);
                entry.section.files = kept;
                assert(entry.model().extras =~= before[i as int].extras);
                self.sections.insert(i, entry);
                assert(self@ =~= remove_entry(before, tool@, file@));
                Ok(())
            },
            None => {
                let msg = "Tool '".to_owned().concat(tool).concat("' not found");
                Err(DotfilesError::InvalidCommand(msg))
            },
        }
    }

    /// The invariant of a manifest: no two sections share a name, and no
    /// section lists a file twice.
    pub open spec fn well_formed(&self) -> bool {
        unique_names(self@) && unique_files(self@)
    }
}

/// Whether a list of strings holds `wanted`.
pub fn contains_string(list: &Vec<String>, wanted: &String) -> (r: bool)
    ensures
        r == texts(list@).contains(wanted@),
{
    let mut i: usize = 0;
    while i < list.len()
        invariant
            i <= list.len(),
            forall|j: int| 0 <= j < i ==> texts(list@)[j] != wanted@,
        decreases list.len() - i,
    {
        if list[i] == *wanted {
            assert(texts(list@)[i as int] == wanted@);
            return true;
        }
        i += 1;
    }
    false
}

/// A copy of a list of strings without the occurrences of `unwanted`.
pub fn strings_without(list: &Vec<String>, unwanted: &String) -> (r: Vec<String>)
    ensures
        texts(r@) == without_file(texts(list@), unwanted@),
{
    let ghost all = texts(list@);
    let ghost pred = |f: Seq<char>| f != unwanted@;
    let mut out: Vec<String> = Vec::new();
    let mut i: usize = 0;
    proof {
        reveal(Seq::filter);
        assert(all.take(0).filter(pred) =~= Seq::<Seq<char>>::empty());
        assert(texts(out@) =~= Seq::<Seq<char>>::empty());
    }
    while i < list.len()
        invariant
            i <= list.len(),
            all == texts(list@),
            pred == |f: Seq<char>| f != unwanted@,
            texts(out@) == all.take(i as int).filter(pred),
        decreases list.len() - i,
    {
        let ghost before = texts(out@);
        let keep = !(list[i] == *unwanted);
        if keep {
            out.push(list[i].clone());
        }
        proof {
            reveal(Seq::filter);
            assert(all.take(i + 1).drop_last() =~= all.take(i as int));
            assert(all.take(i + 1).last() == list@[i as int]@);
            if keep {
                assert(texts(out@) =~= before.push(list@[i as int]@));
            } else {
                assert(texts(out@) =~= before);
            }
        }
        i += 1;
    }
    assert(all.take(i as int) =~= all);
    out
}

} // verus!
