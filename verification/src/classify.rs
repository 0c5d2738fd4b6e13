//! Path classification: which paths reported by the dependency query are
//! genuinely watchable local source, how raw query paths are normalized
//! into filesystem paths, and which changed paths are build-definition
//! files.

use vstd::prelude::*;
use vstd::string::StrSliceExecFns;
use vstd::string::StringExecFns;

verus! {

/// The build tool's placeholder build file for default tool targets: it is
/// always reported as a dependency but never corresponds to user source.
pub open spec fn tools_default_spec(path: Seq<char>) -> bool {
    path == "//tools/defaults:BUILD"@
}

/// A path beginning with `@` refers into an external workspace.
pub open spec fn external_workspace_spec(path: Seq<char>) -> bool {
    "@"@.is_prefix_of(path)
}

/// A path beginning with `//external` is an alias/indirection path.
pub open spec fn aliased_spec(path: Seq<char>) -> bool {
    "//external"@.is_prefix_of(path)
}

/// A query-result path is watchable when it is neither external, nor an
/// alias, nor the placeholder tools build file.
pub open spec fn watchable_spec(path: Seq<char>) -> bool {
    !(external_workspace_spec(path) || aliased_spec(path) || tools_default_spec(path))
}

/// `s` with every leading occurrence of `p` removed.
pub open spec fn strip_all(s: Seq<char>, p: Seq<char>) -> Seq<char>
    decreases s.len(),
{
    if p.len() > 0 && p.is_prefix_of(s) {
        strip_all(s.skip(p.len() as int), p)
    } else {
        s
    }
}

/// Every package/target separator `:` replaced by the path separator `/`.
pub open spec fn replace_colons(s: Seq<char>) -> Seq<char> {
    s.map_values(|c: char| if c == ':' { '/' } else { c })
}

/// Normalization of a raw query path: strip the leading root-package
/// markers `//:` and `//`, then turn `:` separators into `/`.
pub open spec fn clean_path_spec(path: Seq<char>) -> Seq<char> {
    replace_colons(strip_all(strip_all(path, "//:"@), "//"@))
}

/// The final path component: what follows the last `/` (the whole path
/// when it has no separator).
pub open spec fn last_component(path: Seq<char>) -> Seq<char>
    decreases path.len(),
{
    if path.len() == 0 {
        path
    } else if path.last() == '/' {
        Seq::<char>::empty()
    } else {
        last_component(path.drop_last()).push(path.last())
    }
}

/// What follows the last `.` of a file name, or `None` when the name has
/// no `.` at all.
pub open spec fn suffix_after_last_dot(name: Seq<char>) -> Option<Seq<char>>
    decreases name.len(),
{
    if name.len() == 0 {
        None
    } else if name.last() == '.' {
        Some(Seq::<char>::empty())
    } else {
        match suffix_after_last_dot(name.drop_last()) {
            Some(ext) => Some(ext.push(name.last())),
            None => None,
        }
    }
}

/// The extension of a file name: what follows its last `.`, provided
/// something precedes that `.` (a name that is all extension, such as
/// `.bzl`, has none).
pub open spec fn extension_spec(name: Seq<char>) -> Option<Seq<char>> {
    match suffix_after_last_dot(name) {
        Some(ext) => if name.len() > ext.len() + 1 {
            Some(ext)
        } else {
            None
        },
        None => None,
    }
}

/// A changed path is a build-definition file when its final component is
/// the canonical build-file name, or its extension marks it as a
/// build-tool extension file.
pub open spec fn buildfile_spec(path: Seq<char>) -> bool {
    last_component(path) == "BUILD"@ || extension_spec(last_component(path)) == Some("bzl"@)
}

/// Character-for-character equality of two string slices.
fn str_eq(a: &str, b: &str) -> (r: bool)
    ensures
        r == (a@ == b@),
{
    let n = a.unicode_len();
    if n != b.unicode_len() {
        return false;
    }
    let mut i: usize = 0;
    while i < n
        invariant
            n == a@.len(),
            n == b@.len(),
            i <= n,
            forall|j: int| 0 <= j < i ==> a@[j] == b@[j],
        decreases n - i,
    {
        if a.get_char(i) != b.get_char(i) {
            return false;
        }
        i += 1;
    }
    proof {
        assert(a@ =~= b@);
    }
    true
}

/// Does `p` occur in `s` at character position `i`?
fn matches_at(s: &str, i: usize, p: &str) -> (r: bool)
    requires
        i <= s@.len(),
    ensures
        r == p@.is_prefix_of(s@.skip(i as int)),
{
    let n = s.unicode_len();
    let m = p.unicode_len();
    if m > n - i {
        return false;
    }
    let mut j: usize = 0;
    while j < m
        invariant
            n == s@.len(),
            m == p@.len(),
            i + m <= n,
            j <= m,
            forall|k: int| 0 <= k < j ==> s@[i + k] == p@[k],
        decreases m - j,
    {
        if s.get_char(i + j) != p.get_char(j) {
            proof {
                assert(s@.skip(i as int)[j as int] == s@[i + j]);
                assert(!p@.is_prefix_of(s@.skip(i as int))) by {
                    if p@.is_prefix_of(s@.skip(i as int)) {
                        assert(p@[j as int] == s@.skip(i as int).subrange(0, p@.len() as int)[
                            j as int
                        ]);
                    }
                }
            }
            return false;
        }
        j += 1;
    }
    proof {
        assert(p@ =~= s@.skip(i as int).subrange(0, m as int));
    }
    true
}

/// Does `s` begin with `prefix`?
pub(crate) fn has_prefix(s: &str, prefix: &str) -> (r: bool)
    ensures
        r == prefix@.is_prefix_of(s@),
{
    let r = matches_at(s, 0, prefix);
    proof {
        assert(s@.skip(0) =~= s@);
    }
    r
}

/// Is `path` the build tool's placeholder build file for default tool
/// targets?
pub fn tools_default(path: &str) -> (r: bool)
    ensures
        r == tools_default_spec(path@),
{
    str_eq(path, "//tools/defaults:BUILD")
}

/// Does `path` refer into an external workspace?
pub fn external_workspace(path: &str) -> (r: bool)
    ensures
        r == external_workspace_spec(path@),
{
    has_prefix(path, "@")
}

/// Is `path` an alias/indirection path?
pub fn aliased(path: &str) -> (r: bool)
    ensures
        r == aliased_spec(path@),
{
    has_prefix(path, "//external")
}

/// Is `path` genuinely watchable local source?
pub fn watchable(path: &str) -> (r: bool)
    ensures
        r == watchable_spec(path@),
{
    !(external_workspace(path) || aliased(path) || tools_default(path))
}

/// The suffix of `s` left after removing every leading occurrence of `p`.
fn strip_prefix_repeated<'a>(s: &'a str, p: &str) -> (r: &'a str)
    requires
        p@.len() > 0,
    ensures
        r@ == strip_all(s@, p@),
{
    let n = s.unicode_len();
    let m = p.unicode_len();
    let mut start: usize = 0;
    let mut cont = matches_at(s, start, p);
    proof {
        assert(s@.skip(0) =~= s@);
    }
    while cont
        invariant
            n == s@.len(),
            m == p@.len(),
            m > 0,
            start <= n,
            cont == p@.is_prefix_of(s@.skip(start as int)),
            strip_all(s@, p@) == strip_all(s@.skip(start as int), p@),
        decreases n - start,
    {
        proof {
            assert(s@.skip(start as int).skip(m as int) =~= s@.skip((start + m) as int));
        }
        start = start + m;
        cont = matches_at(s, start, p);
    }
    s.substring_char(start, n)
}

/// The colon-replacement pass of normalization.
fn replace_colons_exec(s: &str) -> (r: String)
    ensures
        r@ == replace_colons(s@),
{
    let n = s.unicode_len();
    let mut r = String::new();
    let mut i: usize = 0;
    while i < n
        invariant
            n == s@.len(),
            i <= n,
            r@ == replace_colons(s@.take(i as int)),
        decreases n - i,
    {
        let c = s.get_char(i);
        if c == ':' {
            r.append("/");
            proof {
                reveal_strlit("/");
                assert(r@ =~= replace_colons(s@.take(i + 1)));
            }
        } else {
            r.append(s.substring_char(i, i + 1));
            proof {
                assert(r@ =~= replace_colons(s@.take(i + 1)));
            }
        }
        i += 1;
    }
    proof {
        assert(s@.take(n as int) =~= s@);
    }
    r
}

/// Normalize a raw query path into a filesystem path: strip the leading
/// root-package markers, then turn `:` separators into `/`.
pub fn clean_path(path: &str) -> (r: String)
    ensures
        r@ == clean_path_spec(path@),
{
    proof {
        reveal_strlit("//:");
        reveal_strlit("//");
    }
    let stripped = strip_prefix_repeated(path, "//:");
    let stripped = strip_prefix_repeated(stripped, "//");
    replace_colons_exec(stripped)
}

/// `last_component` is the suffix that starts right after the last `/`.
proof fn lemma_last_component_skip(path: Seq<char>, k: int)
    requires
        0 <= k <= path.len(),
        k == 0 || path[k - 1] == '/',
        forall|j: int| k <= j < path.len() ==> path[j] != '/',
    ensures
        last_component(path) == path.skip(k),
    decreases path.len(),
{
    if path.len() == 0 {
        assert(path.skip(k) =~= path);
    } else if k == path.len() {
        assert(path.last() == '/');
        assert(last_component(path) =~= path.skip(k));
    } else {
        let sub = path.drop_last();
        lemma_last_component_skip(sub, k);
        assert(last_component(sub).push(path.last()) =~= path.skip(k));
    }
}

/// When the last `.` of `name` stands at position `j`, the suffix after
/// the last dot is everything past `j`.
proof fn lemma_suffix_some(name: Seq<char>, j: int)
    requires
        0 <= j < name.len(),
        name[j] == '.',
        forall|k: int| j < k < name.len() ==> name[k] != '.',
    ensures
        suffix_after_last_dot(name) == Some(name.skip(j + 1)),
    decreases name.len(),
{
    if j == name.len() - 1 {
        assert(name.skip(j + 1) =~= Seq::<char>::empty());
    } else {
        let sub = name.drop_last();
        lemma_suffix_some(sub, j);
        assert(sub.skip(j + 1).push(name.last()) =~= name.skip(j + 1));
    }
}

/// A name without any `.` has no suffix after a last dot.
proof fn lemma_suffix_none(name: Seq<char>)
    requires
        forall|k: int| 0 <= k < name.len() ==> name[k] != '.',
    ensures
        suffix_after_last_dot(name) is None,
    decreases name.len(),
{
    if name.len() > 0 {
        lemma_suffix_none(name.drop_last());
    }
}

/// Is `path` a build-definition file: does its final component equal the
/// canonical build-file name, or carry the build-extension suffix?
pub fn buildfile(path: &str) -> (r: bool)
    ensures
        r == buildfile_spec(path@),
{
    let n = path.unicode_len();
    let mut comp_start: usize = 0;
    let mut has_dot: bool = false;
    let mut dot_idx: usize = 0;
    let mut i: usize = 0;
    while i < n
        invariant
            n == path@.len(),
            comp_start <= i <= n,
            comp_start == 0 || path@[comp_start - 1] == '/',
            forall|j: int| comp_start <= j < i ==> path@[j] != '/',
            has_dot ==> comp_start <= dot_idx < i && path@[dot_idx as int] == '.',
            has_dot ==> forall|j: int| dot_idx < j < i ==> path@[j] != '.',
            !has_dot ==> forall|j: int| comp_start <= j < i ==> path@[j] != '.',
        decreases n - i,
    {
        let c = path.get_char(i);
        if c == '/' {
            comp_start = i + 1;
            has_dot = false;
        } else if c == '.' {
            has_dot = true;
            dot_idx = i;
        }
        i += 1;
    }
    let name = path.substring_char(comp_start, n);
    proof {
        lemma_last_component_skip(path@, comp_start as int);
        assert(name@ =~= path@.skip(comp_start as int));
    }
    if str_eq(name, "BUILD") {
        return true;
    }
    if has_dot && dot_idx > comp_start {
        let ext = path.substring_char(dot_idx + 1, n);
        proof {
            let j: int = dot_idx - comp_start;
            assert(name@[j] == path@[dot_idx as int]);
            assert(forall|k: int| j < k < name@.len() ==> name@[k] == path@[comp_start + k]);
            lemma_suffix_some(name@, j);
            assert(ext@ =~= name@.skip(j + 1));
            assert(name@.len() > name@.skip(j + 1).len() + 1);
        }
        str_eq(ext, "bzl")
    } else {
        proof {
            if has_dot {
                let j: int = dot_idx - comp_start;
                assert(name@[j] == path@[dot_idx as int]);
                assert(forall|k: int| j < k < name@.len() ==> name@[k] == path@[comp_start + k]);
                lemma_suffix_some(name@, j);
            } else {
                assert(forall|k: int| 0 <= k < name@.len() ==> name@[k] == path@[comp_start + k]);
                lemma_suffix_none(name@);
            }
        }
        false
    }
}

/// Any path that refers into an external workspace (its first character
/// is `@`) is never watchable.
pub proof fn lemma_external_workspace_not_watchable(path: Seq<char>)
    requires
        path.len() > 0,
        path[0] == '@',
    ensures
        !watchable_spec(path),
{
    reveal_strlit("@");
    assert("@"@ =~= path.subrange(0, 1));
}

/// Any path that begins with the alias root `//external` is never
/// watchable.
pub proof fn lemma_aliased_not_watchable(path: Seq<char>)
    requires
        path.len() >= 10,
        path.subrange(0, 10) == "//external"@,
    ensures
        !watchable_spec(path),
{
    reveal_strlit("//external");
}

} // verus!
