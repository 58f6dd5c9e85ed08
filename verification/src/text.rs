//! Character-level text handling shared by the path resolver, the ignore
//! matcher and the manifest store.

use vstd::prelude::*;
use vstd::string::*;
use vstd::std_specs::iter::IteratorSpec;

verus! {

broadcast use vstd::string::group_string_axioms;

/// The character sequences of a list of strings, element by element.
pub open spec fn texts(v: Seq<String>) -> Seq<Seq<char>> {
    Seq::new(v.len(), |i: int| v[i]@)
}

/// Unicode white space, as `char::is_whitespace` defines it.
pub open spec fn is_whitespace(c: char) -> bool {
    let n = c as u32;
    (0x09 <= n && n <= 0x0d) || n == 0x20 || n == 0x85 || n == 0xa0 || n == 0x1680 || (0x2000 <= n
        && n <= 0x200a) || n == 0x2028 || n == 0x2029 || n == 0x202f || n == 0x205f || n == 0x3000
}

/// `s` without its leading white space.
pub open spec fn trim_start(s: Seq<char>) -> Seq<char>
    decreases s.len(),
{
    if s.len() > 0 && is_whitespace(s[0]) {
        trim_start(s.drop_first())
    } else {
        s
    }
}

/// `s` without its trailing white space.
pub open spec fn trim_end(s: Seq<char>) -> Seq<char>
    decreases s.len(),
{
    if s.len() > 0 && is_whitespace(s.last()) {
        trim_end(s.drop_last())
    } else {
        s
    }
}

/// `s` without surrounding white space.
pub open spec fn trim(s: Seq<char>) -> Seq<char> {
    trim_end(trim_start(s))
}

/// Length of the first line of `s`: the index of its first newline, or its
/// length when it holds none.
pub open spec fn line_end(s: Seq<char>) -> int
    decreases s.len(),
{
    if s.len() == 0 || s[0] == '\n' {
        0
    } else {
        1 + line_end(s.drop_first())
    }
}

/// Everything after the last `/` of `s`; all of `s` when it holds none.
pub open spec fn basename(s: Seq<char>) -> Seq<char>
    decreases s.len(),
{
    if s.len() == 0 {
        s
    } else if s.last() == '/' {
        Seq::empty()
    } else {
        basename(s.drop_last()).push(s.last())
    }
}

/// `base` and `part` with one `/` between them.
pub open spec fn join_path(base: Seq<char>, part: Seq<char>) -> Seq<char> {
    base + seq!['/'] + part
}

/// A section name that marks metadata: it begins with an underscore.
pub open spec fn is_metadata_name(name: Seq<char>) -> bool {
    name.len() > 0 && name[0] == '_'
}

/// Trimming at the start drops exactly the first `k` characters when they
/// are white space and the next one is not.
pub proof fn lemma_trim_start_at(s: Seq<char>, k: int)
    requires
        0 <= k <= s.len(),
        forall|j: int| 0 <= j < k ==> is_whitespace(#[trigger] s[j]),
        k == s.len() || !is_whitespace(s[k]),
    ensures
        trim_start(s) == s.skip(k),
    decreases k,
{
    if k == 0 {
        assert(s.skip(0) =~= s);
    } else {
        let t = s.drop_first();
        assert forall|j: int| 0 <= j < k - 1 implies is_whitespace(#[trigger] t[j]) by {
            assert(t[j] == s[j + 1]);
        }
        lemma_trim_start_at(t, k - 1);
        assert(t.skip(k - 1) =~= s.skip(k));
    }
}

/// Trimming at the end keeps exactly the first `k` characters when all
/// that follow are white space and the one before is not.
pub proof fn lemma_trim_end_at(s: Seq<char>, k: int)
    requires
        0 <= k <= s.len(),
        forall|j: int| k <= j < s.len() ==> is_whitespace(#[trigger] s[j]),
        k == 0 || !is_whitespace(s[k - 1]),
    ensures
        trim_end(s) == s.take(k),
    decreases s.len() - k,
{
    if k == s.len() {
        assert(s.take(k) =~= s);
    } else {
        let t = s.drop_last();
        lemma_trim_end_at(t, k);
        assert(t.take(k) =~= s.take(k));
    }
}

/// The first line ends at `k` when no newline comes before `k` and the
/// text ends there or has a newline there.
pub proof fn lemma_line_end_at(s: Seq<char>, k: int)
    requires
        0 <= k <= s.len(),
        forall|j: int| 0 <= j < k ==> #[trigger] s[j] != '\n',
        k == s.len() || s[k] == '\n',
    ensures
        line_end(s) == k,
    decreases k,
{
    if k > 0 {
        let t = s.drop_first();
        assert forall|j: int| 0 <= j < k - 1 implies #[trigger] t[j] != '\n' by {
            assert(t[j] == s[j + 1]);
        }
        lemma_line_end_at(t, k - 1);
    }
}

/// The basename starts at `k` when no `/` comes at or after `k` and one
/// stands just before it, or `k` is the start.
pub proof fn lemma_basename_at(s: Seq<char>, k: int)
    requires
        0 <= k <= s.len(),
        forall|j: int| k <= j < s.len() ==> #[trigger] s[j] != '/',
        k == 0 || s[k - 1] == '/',
    ensures
        basename(s) == s.skip(k),
    decreases s.len() - k,
{
    if s.len() == 0 {
        assert(s.skip(0) =~= s);
    } else if k == s.len() {
        assert(s.skip(k) =~= Seq::<char>::empty());
    } else {
        let t = s.drop_last();
        lemma_basename_at(t, k);
        assert(t.skip(k).push(s.last()) =~= s.skip(k));
    }
}

/// A name without a `/` is its own basename, whatever directories are put
/// in front of it.
pub proof fn lemma_basename_drops_directories(dir: Seq<char>, name: Seq<char>)
    requires
        !name.contains('/'),
    ensures
        basename(name) == name,
        basename(join_path(dir, name)) == name,
{
    lemma_basename_at(name, 0);
    assert(name.skip(0) =~= name);
    let full = join_path(dir, name);
    let k: int = dir.len() as int + 1;
    assert(full[k - 1] == '/');
    assert forall|j: int| k <= j < full.len() implies #[trigger] full[j] != '/' by {
        assert(full[j] == name[j - k]);
        assert(name.contains(name[j - k]));
    }
    lemma_basename_at(full, k);
    assert(full.skip(k) =~= name);
}

/// The characters of `s`, in order.
pub fn to_chars(s: &str) -> (v: Vec<char>)
    ensures
        v@ == s@,
{
    let mut it = s.chars();
    let mut v: Vec<char> = Vec::new();
    loop
        invariant
            it.obeys_prophetic_iter_laws(),
            v@ + it.remaining() == s@,
            it.decrease() is Some,
        ensures
            v@ == s@,
        decreases it.decrease()->0,
    {
        match it.next() {
            Some(c) => {
                v.push(c);
                assert(v@ + it.remaining() =~= s@);
            },
            None => {
                assert(v@ =~= s@);
                break ;
            },
        }
    }
    v
}

/// Whether `c` is Unicode white space.
pub fn char_is_whitespace(c: char) -> (r: bool)
    ensures
        r == is_whitespace(c),
{
    let n: u32 = c as u32;
    (0x09 <= n && n <= 0x0d) || n == 0x20 || n == 0x85 || n == 0xa0 || n == 0x1680 || (0x2000 <= n
        && n <= 0x200a) || n == 0x2028 || n == 0x2029 || n == 0x202f || n == 0x205f || n == 0x3000
}

/// The bounds of `chars[from..to]` once surrounding white space is trimmed.
pub fn trim_bounds(chars: &Vec<char>, from: usize, to: usize) -> (r: (usize, usize))
    requires
        from <= to <= chars.len(),
    ensures
        from <= r.0 <= r.1 <= to,
        chars@.subrange(r.0 as int, r.1 as int) == trim(chars@.subrange(from as int, to as int)),
{
    let ghost whole = chars@.subrange(from as int, to as int);
    let mut a: usize = from;
    while a < to && char_is_whitespace(chars[a])
        invariant
            from <= a <= to <= chars.len(),
            forall|j: int| from <= j < a ==> is_whitespace(#[trigger] chars@[j]),
        decreases to - a,
    {
        a += 1;
    }
    let mut b: usize = to;
    while b > a && char_is_whitespace(chars[b - 1])
        invariant
            from <= a <= b <= to <= chars.len(),
            forall|j: int| b <= j < to ==> is_whitespace(#[trigger] chars@[j]),
        decreases b,
    {
        b -= 1;
    }
    proof {
        assert forall|j: int| 0 <= j < a - from implies is_whitespace(#[trigger] whole[j]) by {
            assert(whole[j] == chars@[from + j]);
        }
        lemma_trim_start_at(whole, a - from);
        let rest = whole.skip(a - from);
        assert(rest =~= chars@.subrange(a as int, to as int));
        assert forall|j: int| b - a <= j < rest.len() implies is_whitespace(#[trigger] rest[j]) by {
            assert(rest[j] == chars@[a + j]);
        }
        lemma_trim_end_at(rest, b - a);
        assert(rest.take(b - a) =~= chars@.subrange(a as int, b as int));
    }
    (a, b)
}

/// The basename of a file name, as an owned string.
pub fn basename_of(name: &str) -> (r: String)
    ensures
        r@ == basename(name@),
{
    let chars = to_chars(name);
    let n: usize = chars.len();
    let mut k: usize = n;
    while k > 0 && chars[k - 1] != '/'
        invariant
            k <= n == chars.len(),
            forall|j: int| k <= j < n ==> #[trigger] chars@[j] != '/',
        decreases k,
    {
        k -= 1;
    }
    proof {
        lemma_basename_at(name@, k as int);
    }
    name.substring_char(k, n).to_owned()
}

/// `base`, a `/`, and `part`.
pub fn join(base: &str, part: &str) -> (r: String)
    ensures
        r@ == join_path(base@, part@),
{
    let mut out = base.to_owned();
    out.append("/");
    out.append(part);
    proof {
        reveal_strlit("/");
        assert("/"@ =~= seq!['/']);
    }
    out
}

/// Whether a section name begins with an underscore.
pub fn has_metadata_name(name: &str) -> (r: bool)
    ensures
        r == is_metadata_name(name@),
{
    let mut it = name.chars();
    match it.next() {
        Some(c) => c == '_',
        None => false,
    }
}

/// A copy of a list of strings.
pub fn clone_strings(v: &Vec<String>) -> (r: Vec<String>)
    ensures
        r@ == v@,
{
    let mut out: Vec<String> = Vec::new();
    let mut i: usize = 0;
    while i < v.len()
        invariant
            i <= v.len(),
            out@ == v@.take(i as int),
        decreases v.len() - i,
    {
        out.push(v[i].clone());
        assert(out@ =~= v@.take(i + 1));
        i += 1;
    }
    assert(v@.take(v.len() as int) =~= v@);
    out
}

} // verus!
