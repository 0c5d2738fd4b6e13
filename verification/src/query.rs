//! The dependency-query side of the trigger layer: the query expressions
//! handed to the build tool for a target, and the parsing of the query's
//! raw output into watchable, normalized paths.
//!
//! The build tool itself is an opaque subprocess; the caller runs its
//! `query` subcommand with an expression from [`sources`] or [`builds`]
//! and hands the captured standard output to [`query_output`].

use vstd::prelude::*;
use vstd::string::StrSliceExecFns;
use vstd::string::StringExecFns;
use crate::classify::{clean_path, clean_path_spec, watchable, watchable_spec};

verus! {

/// The query expression selecting all transitive source-file dependencies
/// of `target`.
pub open spec fn source_query_spec(target: Seq<char>) -> Seq<char> {
    "kind('source file', deps(set("@ + target + ")))"@
}

/// The query expression selecting all transitive build-definition-file
/// dependencies of `target`.
pub open spec fn build_query_spec(target: Seq<char>) -> Seq<char> {
    "buildfiles(deps(set("@ + target + ")))"@
}

/// A line with a trailing carriage return removed, as the line splitter
/// treats a `\r\n` ending.
pub open spec fn strip_cr(line: Seq<char>) -> Seq<char> {
    if line.len() > 0 && line.last() == '\r' {
        line.drop_last()
    } else {
        line
    }
}

/// The lines of `s` from position `i` on, the current line having begun
/// at `start`: lines end at `\n` (a `\r\n` ending is trimmed), and a final
/// segment without a newline is kept as it stands.
pub open spec fn split_lines_from(s: Seq<char>, i: int, start: int) -> Seq<Seq<char>>
    decreases s.len() - i,
    when i <= s.len()
{
    if i >= s.len() {
        if start < s.len() {
            seq![s.subrange(start, s.len() as int)]
        } else {
            Seq::<Seq<char>>::empty()
        }
    } else if s[i] == '\n' {
        seq![strip_cr(s.subrange(start, i))] + split_lines_from(s, i + 1, i + 1)
    } else {
        split_lines_from(s, i + 1, start)
    }
}

/// The lines of `s`.
pub open spec fn split_lines(s: Seq<char>) -> Seq<Seq<char>> {
    split_lines_from(s, 0, 0)
}

/// The watchable lines of a query result, each normalized into a
/// filesystem path, in the order the query reported them.
pub open spec fn process_lines(lines: Seq<Seq<char>>) -> Seq<Seq<char>>
    decreases lines.len(),
{
    if lines.len() == 0 {
        Seq::<Seq<char>>::empty()
    } else {
        let rest = process_lines(lines.drop_last());
        if watchable_spec(lines.last()) {
            rest.push(clean_path_spec(lines.last()))
        } else {
            rest
        }
    }
}

/// What `query_output` yields on a raw query stdout.
pub open spec fn query_output_spec(s: Seq<char>) -> Seq<Seq<char>> {
    process_lines(split_lines(s))
}

/// The query expression whose result lists the transitive source files of
/// `target`; the caller runs the build tool's query subcommand with it
/// and hands the output to [`query_output`].
pub fn sources(target: &str) -> (q: String)
    ensures
        q@ == source_query_spec(target@),
{
    String::from_str("kind('source file', deps(set(").concat(target).concat(")))")
}

/// The query expression whose result lists the transitive
/// build-definition files of `target`; run and parsed like [`sources`].
pub fn builds(target: &str) -> (q: String)
    ensures
        q@ == build_query_spec(target@),
{
    String::from_str("buildfiles(deps(set(").concat(target).concat(")))")
}

/// Split a query's raw standard output into lines.
pub fn split_into_lines(s: &str) -> (lines: Vec<&str>)
    ensures
        lines.deep_view() == split_lines(s@),
{
    let n = s.unicode_len();
    let mut lines: Vec<&str> = Vec::new();
    let mut start: usize = 0;
    let mut i: usize = 0;
    while i < n
        invariant
            n == s@.len(),
            start <= i <= n,
            lines.deep_view() + split_lines_from(s@, i as int, start as int) == split_lines(s@),
        decreases n - i,
    {
        let ghost prev = lines.deep_view();
        let c = s.get_char(i);
        if c == '\n' {
            let line = if i > start && s.get_char(i - 1) == '\r' {
                let l = s.substring_char(start, i - 1);
                proof {
                    assert(s@.subrange(start as int, i as int).last() == '\r');
                    assert(s@.subrange(start as int, i - 1) =~= s@.subrange(
                        start as int,
                        i as int,
                    ).drop_last());
                }
                l
            } else {
                let l = s.substring_char(start, i);
                proof {
                    if i > start {
                        assert(s@.subrange(start as int, i as int).last() == s@[i - 1]);
                    }
                }
                l
            };
            proof {
                assert(line@ == strip_cr(s@.subrange(start as int, i as int)));
            }
            lines.push(line);
            proof {
                assert(lines.deep_view() =~= prev.push(line@));
                assert(prev.push(line@) + split_lines_from(s@, i + 1, i + 1) =~= prev + (seq![
                    strip_cr(s@.subrange(start as int, i as int)),
                ] + split_lines_from(s@, i + 1, i + 1)));
            }
            start = i + 1;
        }
        i += 1;
    }
    if start < n {
        let ghost prev = lines.deep_view();
        let line = s.substring_char(start, n);
        lines.push(line);
        proof {
            assert(lines.deep_view() =~= prev.push(line@));
            assert(prev.push(line@) =~= prev + seq![s@.subrange(start as int, n as int)]);
        }
    }
    lines
}

/// Parse a query's raw standard output: keep the watchable lines and
/// normalize each into a filesystem path.
pub fn query_output(stdout: &str) -> (paths: Vec<String>)
    ensures
        paths.deep_view() == query_output_spec(stdout@),
{
    let lines = split_into_lines(stdout);
    let n = lines.len();
    let mut paths: Vec<String> = Vec::new();
    let mut j: usize = 0;
    while j < n
        invariant
            n == lines@.len(),
            j <= n,
            lines.deep_view() == split_lines(stdout@),
            paths.deep_view() == process_lines(lines.deep_view().take(j as int)),
        decreases n - j,
    {
        let ghost prev = paths.deep_view();
        let ghost ldv = lines.deep_view();
        proof {
            assert(ldv.take(j + 1).drop_last() =~= ldv.take(j as int));
            assert(ldv.take(j + 1).last() == ldv[j as int]);
        }
        let line = lines[j];
        if watchable(line) {
            paths.push(clean_path(line));
            proof {
                assert(paths.deep_view() =~= prev.push(clean_path_spec(ldv[j as int])));
            }
        }
        j += 1;
    }
    proof {
        assert(lines.deep_view().take(n as int) =~= lines.deep_view());
    }
    paths
}

} // verus!
