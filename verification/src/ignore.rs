//! The ignore matcher: a list of glob patterns, read from a newline-delimited
//! text, that answers whether the basename of a file name matches any of
//! them.

use vstd::prelude::*;
use vstd::string::*;
use glob::Pattern;
use glob::PatternError;
use crate::error::DotfilesError;
use crate::text::{
    basename, basename_of, join_path, lemma_basename_drops_directories, lemma_line_end_at, line_end,
    texts, to_chars, trim, trim_bounds,
};

verus! {

/// `glob::Pattern`, a compiled glob pattern. Nothing inside it is visible
/// here; it is known by the text it was compiled from.
#[verifier::external_type_specification]
#[verifier::external_body]
pub struct ExPattern(glob::Pattern);

/// `glob::PatternError`, the reason why a text is no glob pattern. It is
/// only told apart from success.
#[verifier::external_type_specification]
#[verifier::external_body]
pub struct ExPatternError(glob::PatternError);

/// The text that a compiled pattern was made from: what `Pattern::as_str`
/// returns for it.
pub uninterp spec fn pattern_text(p: Pattern) -> Seq<char>;

/// Whether `Pattern::new` accepts a text as a glob pattern (`?`, `*`,
/// `**` as a whole path component, `[...]` and `[!...]`).
pub uninterp spec fn glob_compiles(text: Seq<char>) -> bool;

/// Whether the pattern compiled from `pattern` matches all of `name` under
/// the default match options: what `Pattern::matches` returns. Which
/// characters separate path components is fixed by the platform that the
/// library is built for.
pub uninterp spec fn glob_matches(pattern: Seq<char>, name: Seq<char>) -> bool;

/// Calls `Pattern::new`. It succeeds on exactly the texts that are valid
/// glob patterns, and the pattern it returns keeps the text it was given.
#[verifier::external_body]
fn compile_pattern(text: &str) -> (r: Result<Pattern, PatternError>)
    ensures
        r is Ok == glob_compiles(text@),
        r is Ok ==> pattern_text(r->Ok_0) == text@,
{
    Pattern::new(text)
}

/// Calls `Pattern::matches`: whether the whole of `name` matches the
/// pattern. The answer is determined by the pattern's text and the name.
#[verifier::external_body]
fn pattern_matches(p: &Pattern, name: &str) -> (r: bool)
    ensures
        r == glob_matches(pattern_text(*p), name@),
{
    p.matches(name)
}

/// Calls `Pattern::as_str`, which hands back the text the pattern was
/// compiled from.
#[verifier::external_body]
fn pattern_source(p: &Pattern) -> (r: String)
    ensures
        r@ == pattern_text(*p),
{
    p.as_str().to_owned()
}

/// A line that holds a pattern: not empty and not a comment. It is applied
/// to lines that are already trimmed.
pub open spec fn is_pattern_line(line: Seq<char>) -> bool {
    line.len() > 0 && line[0] != '#'
}

/// The patterns of an ignore text: its lines, split at newlines and
/// trimmed, without the empty ones and the comments, in order.
pub open spec fn pattern_lines(content: Seq<char>) -> Seq<Seq<char>>
    decreases content.len(),
{
    let k = line_end(content);
    let line = trim(content.take(k));
    let head = if is_pattern_line(line) {
        seq![line]
    } else {
        Seq::empty()
    };
    if 0 <= k < content.len() {
        head + pattern_lines(content.skip(k + 1))
    } else {
        head
    }
}

/// The patterns that are used when no ignore file exists.
pub open spec fn default_ignore_text() -> Seq<char> {
    "# Add files to ignore when syncing\n# Each line is a glob pattern matched against the basename of files\n*history\n*_history\n*id_rsa*\n*authorized_keys*\n*known_hosts*\n*htop\n*netrc\n*oauth*\n*robrc\n*token*\n*.cert\n*.key\n*.pem\n*.crt\n*credentials*\n*client_secret*\n"@
}

/// Whether every text of a list is a valid glob pattern.
pub open spec fn all_compile(lines: Seq<Seq<char>>) -> bool {
    forall|i: int| 0 <= i < lines.len() ==> glob_compiles(#[trigger] lines[i])
}

/// Whether `k` is the first text of a list that is no valid glob pattern.
pub open spec fn first_invalid(lines: Seq<Seq<char>>, k: int) -> bool {
    &&& 0 <= k < lines.len()
    &&& !glob_compiles(lines[k])
    &&& forall|i: int| 0 <= i < k ==> glob_compiles(#[trigger] lines[i])
}

/// What loading an ignore text owes: when every pattern line is a valid
/// pattern, the list that holds them in order; otherwise `InvalidPattern`
/// with the first line that is not.
pub open spec fn loads(content: Seq<char>, r: Result<DotIgnore, DotfilesError>) -> bool {
    let lines = pattern_lines(content);
    match r {
        Ok(ignore) => all_compile(lines) && ignore.pattern_texts() == lines,
        Err(DotfilesError::InvalidPattern(line)) => exists|k: int|
            #[trigger] first_invalid(lines, k) && line@ == lines[k],
        Err(_) => false,
    }
}

/// The text to load: what the source holds, or the built-in default.
pub open spec fn stored_or_default(stored: Option<&str>) -> Seq<char> {
    match stored {
        Some(content) => content@,
        None => default_ignore_text(),
    }
}

/// Where an ignore list is read from.
#[derive(Debug)]
pub enum DotIgnoreSource {
    /// The ignore file at this path.
    File(String),
    /// The ignore text that the binary carries.
    Embedded,
}

/// A compiled ignore list.
#[derive(Debug)]
pub struct DotIgnore {
    pub patterns: Vec<Pattern>,
}

/// What becomes of one pattern line once the compiler has answered: the
/// compiled pattern, or `InvalidPattern` with the line.
pub fn pattern_or_error(line: String, compiled: Result<Pattern, PatternError>) -> (r: Result<
    Pattern,
    DotfilesError,
>)
    ensures
        match compiled {
            Ok(p) => r == Ok::<Pattern, DotfilesError>(p),
            Err(_) => r == Err::<Pattern, DotfilesError>(DotfilesError::InvalidPattern(line)),
        },
{
    match compiled {
        Ok(p) => Ok(p),
        Err(_) => Err(DotfilesError::InvalidPattern(line)),
    }
}

/// The pattern lines of an ignore text.
pub fn pattern_lines_of(content: &str) -> (r: Vec<String>)
    ensures
        texts(r@) == pattern_lines(content@),
{
    let chars = to_chars(content);
    let n: usize = chars.len();
    let mut out: Vec<String> = Vec::new();
    let mut pos: usize = 0;
    let mut done = false;
    proof {
        assert(content@.skip(0) =~= content@);
        assert(texts(out@) + pattern_lines(content@) =~= pattern_lines(content@));
    }
    while !done
        invariant
            chars@ == content@,
            n == chars.len(),
            pos <= n,
            !done ==> texts(out@) + pattern_lines(content@.skip(pos as int)) == pattern_lines(
                content@,
            ),
            done ==> texts(out@) == pattern_lines(content@),
        decreases (if done { 0int } else { 1int }), n - pos,
    {
        let ghost rest = content@.skip(pos as int);
        let ghost before = texts(out@);
        let mut end: usize = pos;
        while end < n && chars[end] != '\n'
            invariant
                pos <= end <= n == chars.len(),
                forall|j: int| pos <= j < end ==> #[trigger] chars@[j] != '\n',
            decreases n - end,
        {
            end += 1;
        }
        proof {
            assert forall|j: int| 0 <= j < end - pos implies #[trigger] rest[j] != '\n' by {
                assert(rest[j] == chars@[pos + j]);
            }
            lemma_line_end_at(rest, end - pos);
            assert(rest.take(end - pos) =~= chars@.subrange(pos as int, end as int));
        }
        let (a, b) = trim_bounds(&chars, pos, end);
        let ghost line = chars@.subrange(a as int, b as int);
        if a < b && chars[a] != '#' {
            let piece = content.substring_char(a, b).to_owned();
            out.push(piece);
            proof {
                assert(line[0] == chars@[a as int]);
                assert(texts(out@) =~= before + seq![line]);
            }
        }
        proof {
            let head = if is_pattern_line(line) {
                seq![line]
            } else {
                Seq::empty()
            };
            assert(texts(out@) =~= before + head);
            if a < b {
                assert(line[0] == chars@[a as int]);
            }
        }
        if end < n {
            proof {
                assert(rest.skip(end - pos + 1) =~= content@.skip(end + 1));
                assert(texts(out@) + pattern_lines(content@.skip(end + 1)) =~= before
                    + pattern_lines(rest));
            }
            pos = end + 1;
        } else {
            proof {
                assert(texts(out@) + Seq::<Seq<char>>::empty() =~= texts(out@));
            }
            done = true;
        }
    }
    out
}

impl DotIgnore {
    /// The texts of the patterns, in order.
    pub open spec fn pattern_texts(&self) -> Seq<Seq<char>> {
        Seq::new(self.patterns@.len(), |i: int| pattern_text(self.patterns@[i]))
    }

    /// Whether some pattern matches the basename of `file`.
    pub open spec fn ignores(&self, file: Seq<char>) -> bool {
        exists|i: int|
            0 <= i < self.patterns@.len() && glob_matches(
                #[trigger] pattern_text(self.patterns@[i]),
                basename(file),
            )
    }

    /// The built-in ignore text, used when no ignore file exists.
    pub fn default_content() -> (r: &'static str)
        ensures
            r@ == default_ignore_text(),
    {
        "# Add files to ignore when syncing\n# Each line is a glob pattern matched against the basename of files\n*history\n*_history\n*id_rsa*\n*authorized_keys*\n*known_hosts*\n*htop\n*netrc\n*oauth*\n*robrc\n*token*\n*.cert\n*.key\n*.pem\n*.crt\n*credentials*\n*client_secret*\n"
    }

    /// What to write to the ignore file at startup: the built-in default
    /// when the file does not exist, nothing when it does.
    pub fn create_default(exists: bool) -> (r: Option<&'static str>)
        ensures
            exists ==> r is None,
            !exists ==> r is Some && r.unwrap()@ == default_ignore_text(),
    {
        if exists {
            None
        } else {
            Some(DotIgnore::default_content())
        }
    }

    /// Compiles the pattern lines of an ignore text. When every line is a
    /// valid pattern the list holds them in order; otherwise the first
    /// invalid line is reported.
    pub fn from_content(content: &str) -> (r: Result<DotIgnore, DotfilesError>)
        ensures
            loads(content@, r),
    {
        let lines = pattern_lines_of(content);
        let ghost wanted = pattern_lines(content@);
        let mut patterns: Vec<Pattern> = Vec::new();
        let mut i: usize = 0;
        while i < lines.len()
            invariant
                i <= lines.len(),
                texts(lines@) == wanted,
                wanted == pattern_lines(content@),
                patterns@.len() == i,
                forall|j: int| 0 <= j < i ==> glob_compiles(#[trigger] wanted[j]),
                forall|j: int| 0 <= j < i ==> pattern_text(#[trigger] patterns@[j]) == wanted[j],
            decreases lines.len() - i,
        {
            assert(wanted[i as int] == lines@[i as int]@);
            let compiled = compile_pattern(lines[i].as_str());
            match pattern_or_error(lines[i].clone(), compiled) {
                Ok(p) => {
                    patterns.push(p);
                },
                Err(e) => {
                    assert(first_invalid(wanted, i as int) && e.detail() == wanted[i as int]);
                    return Err(e);
                },
            }
            i += 1;
        }
        let ignore = DotIgnore { patterns };
        assert(ignore.pattern_texts() =~= wanted);
        Ok(ignore)
    }

    /// The ignore list of a source. `stored` is the text found there; when
    /// the source holds none, the built-in default is used.
    pub fn from_source(source: &DotIgnoreSource, stored: Option<&str>) -> (r: Result<
        DotIgnore,
        DotfilesError,
    >)
        ensures
            loads(stored_or_default(stored), r),
    {
        match stored {
            Some(content) => DotIgnore::from_content(content),
            None => DotIgnore::from_content(DotIgnore::default_content()),
        }
    }

    /// The ignore list of the file at `path`, of which `stored` is the
    /// content, or `None` when the file does not exist.
    pub fn new(path: &str, stored: Option<&str>) -> (r: Result<DotIgnore, DotfilesError>)
        ensures
            loads(stored_or_default(stored), r),
    {
        let source = DotIgnoreSource::File(path.to_owned());
        DotIgnore::from_source(&source, stored)
    }

    /// The ignore list that the binary carries, of which `stored` is the
    /// text, or `None` when none was bundled.
    pub fn from_embedded(stored: Option<&str>) -> (r: Result<DotIgnore, DotfilesError>)
        ensures
            loads(stored_or_default(stored), r),
    {
        DotIgnore::from_source(&DotIgnoreSource::Embedded, stored)
    }

    /// The texts of the patterns, in order.
    pub fn pattern_strings(&self) -> (r: Vec<String>)
        ensures
            texts(r@) == self.pattern_texts(),
    {
        let mut out: Vec<String> = Vec::new();
        let mut i: usize = 0;
        while i < self.patterns.len()
            invariant
                i <= self.patterns.len(),
                out@.len() == i,
                forall|j: int| 0 <= j < i ==> (#[trigger] out@[j])@ == pattern_text(self.patterns@[j]),
            decreases self.patterns.len() - i,
        {
            out.push(pattern_source(&self.patterns[i]));
            i += 1;
        }
        assert(texts(out@) =~= self.pattern_texts());
        out
    }

    /// Whether a file is shielded from every operation: whether some
    /// pattern matches its basename.
    pub fn is_ignored(&self, filename: &str) -> (r: bool)
        ensures
            r == self.ignores(filename@),
    {
        let base = basename_of(filename);
        let mut i: usize = 0;
        while i < self.patterns.len()
            invariant
                i <= self.patterns.len(),
                base@ == basename(filename@),
                forall|j: int| 0 <= j < i ==> !glob_matches(#[trigger] pattern_text(self.patterns@[j]), base@),
            decreases self.patterns.len() - i,
        {
            if pattern_matches(&self.patterns[i], base.as_str()) {
                return true;
            }
            i += 1;
        }
        false
    }

    /// Directories in a file name do not affect the answer: a name without
    /// a `/` is ignored exactly when it is ignored below any directory, and
    /// exactly when some pattern matches the name itself.
    pub proof fn lemma_directories_do_not_matter(&self, dir: Seq<char>, name: Seq<char>)
        requires
            !name.contains('/'),
        ensures
            self.ignores(join_path(dir, name)) == self.ignores(name),
            self.ignores(name) == (exists|i: int|
                0 <= i < self.patterns@.len() && glob_matches(
                    #[trigger] pattern_text(self.patterns@[i]),
                    name,
                )),
    {
        lemma_basename_drops_directories(dir, name);
    }
}

} // verus!
