//! Watch-set construction: the full list of paths to register with the
//! filesystem watcher for a list of targets. Every (re)build is a full
//! re-derivation from fresh query output — never an incremental diff —
//! so the set always matches the targets' current dependency graph.

use vstd::prelude::*;
use crate::query::{query_output, query_output_spec};

verus! {

/// The registration list for a list of targets, given the raw output of
/// each target's source query and build-file query: per target, its
/// watchable normalized sources first, then its watchable normalized
/// build files, targets in order.
pub open spec fn watch_list_spec(src_outs: Seq<Seq<char>>, build_outs: Seq<Seq<char>>) -> Seq<
    Seq<char>,
>
    decreases src_outs.len(),
{
    if src_outs.len() == 0 {
        Seq::<Seq<char>>::empty()
    } else {
        watch_list_spec(src_outs.drop_last(), build_outs.drop_last()) + query_output_spec(
            src_outs.last(),
        ) + query_output_spec(build_outs.last())
    }
}

/// The paths to register for a list of targets: `source_outputs[i]` and
/// `build_outputs[i]` are the raw stdout of the source query and the
/// build-file query for the `i`-th target. Re-registering a path the
/// watcher already holds is the watcher's own idempotent re-watch, so the
/// list is handed over as derived, without deduplication.
pub fn watch_list(source_outputs: &Vec<String>, build_outputs: &Vec<String>) -> (paths: Vec<
    String,
>)
    requires
        source_outputs@.len() == build_outputs@.len(),
    ensures
        paths.deep_view() == watch_list_spec(
            source_outputs.deep_view(),
            build_outputs.deep_view(),
        ),
{
    let ghost sdv = source_outputs.deep_view();
    let ghost bdv = build_outputs.deep_view();
    let n = source_outputs.len();
    let mut paths: Vec<String> = Vec::new();
    let mut i: usize = 0;
    while i < n
        invariant
            n == source_outputs@.len(),
            n == build_outputs@.len(),
            i <= n,
            sdv == source_outputs.deep_view(),
            bdv == build_outputs.deep_view(),
            paths.deep_view() == watch_list_spec(sdv.take(i as int), bdv.take(i as int)),
        decreases n - i,
    {
        let ghost prev = paths.deep_view();
        let mut src_paths = query_output(source_outputs[i].as_str());
        let ghost src_part = src_paths.deep_view();
        paths.append(&mut src_paths);
        let mut build_paths = query_output(build_outputs[i].as_str());
        let ghost build_part = build_paths.deep_view();
        paths.append(&mut build_paths);
        proof {
            assert(paths.deep_view() =~= prev + src_part + build_part);
            assert(sdv.take(i + 1).drop_last() =~= sdv.take(i as int));
            assert(bdv.take(i + 1).drop_last() =~= bdv.take(i as int));
            assert(sdv.take(i + 1).last() == sdv[i as int]);
            assert(bdv.take(i + 1).last() == bdv[i as int]);
        }
        i += 1;
    }
    proof {
        assert(sdv.take(n as int) =~= sdv);
        assert(bdv.take(n as int) =~= bdv);
    }
    paths
}

} // verus!
