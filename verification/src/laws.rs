//! The pipeline's general laws, stated and proved over the spec functions
//! the executable contracts use.
use vstd::prelude::*;

use crate::discover::{cand_view, cands_view, step_cand, walk_cands, Candidate, DirTree};
use crate::entry::entry_matches;
use crate::includes::spec_plan;
use crate::model::CLangEntry;
use crate::pattern::glob_match;
use crate::text::spec_path_join;

verus! {

/// Pruning: a directory the branch glob matches is the sole candidate of
/// its subtree; its descendants are not explored, let alone returned.
pub proof fn lemma_pruning(t: DirTree, pat: Seq<char>)
    requires
        glob_match(pat, t.path@),
    ensures
        step_cand(t, pat) == seq![(t.path@, t.files.deep_view())],
{
}

/// A directory the glob does not match contributes exactly what the walk
/// of its subtree yields: recursion continues below it.
pub proof fn lemma_descent(t: DirTree, pat: Seq<char>)
    requires
        !glob_match(pat, t.path@),
    ensures
        step_cand(t, pat) == walk_cands(t.subdirs@, pat),
{
}

/// An include path that is already absolute is kept as it is, whatever
/// the source file's directory and the working directory are.
pub proof fn lemma_absolute_include_identity(
    p: Seq<char>,
    d1: Seq<char>,
    d2: Seq<char>,
    cwd1: Seq<char>,
    cwd2: Seq<char>,
)
    requires
        p.len() > 0 && p[0] == '/',
    ensures
        spec_plan(p, d1, cwd1) is None,
        spec_plan(p, d1, cwd1) == spec_plan(p, d2, cwd2),
{
}

/// An include path that starts with an explicit `.` or `..` component is
/// anchored to the source file's directory, not the working directory:
/// the anchor is the file's directory whatever the working directory is,
/// so two files in different directories get different anchors.
pub proof fn lemma_dot_relative_anchoring(p: Seq<char>, d1: Seq<char>, d2: Seq<char>, cwd: Seq<char>)
    requires
        p.len() >= 2 && p[0] == '.' && (p[1] == '/' || (p.len() >= 3 && p[1] == '.' && p[2] == '/')),
    ensures
        spec_plan(p, d1, cwd) == Some((d1, spec_path_join(d1, p))),
        spec_plan(p, d2, cwd) == Some((d2, spec_path_join(d2, p))),
{
}

/// Discovery is deterministic: against one snapshot and one pattern, two
/// candidate lists both produced by the walk hold the same directories,
/// with the same file listings, in the same order.
pub proof fn lemma_discovery_deterministic(
    a: Seq<Candidate>,
    b: Seq<Candidate>,
    ts: Seq<DirTree>,
    pat: Seq<char>,
)
    requires
        cands_view(a) == walk_cands(ts, pat),
        cands_view(b) == walk_cands(ts, pat),
    ensures
        a.len() == b.len(),
        forall|i: int|
            0 <= i < a.len() ==> #[trigger] a[i].path@ == b[i].path@ && a[i].files.deep_view()
                == b[i].files.deep_view(),
{
    assert(cands_view(a).len() == a.len());
    assert(cands_view(b).len() == b.len());
    assert forall|i: int|
        0 <= i < a.len() implies #[trigger] a[i].path@ == b[i].path@ && a[i].files.deep_view()
        == b[i].files.deep_view() by {
        assert(cands_view(a)[i] == cand_view(a[i]));
        assert(cands_view(b)[i] == cand_view(b[i]));
    }
}

/// Entry synthesis is deterministic: two rows that both meet the entry
/// contract for one file, include list, flag text and compiler are the
/// same row.
pub proof fn lemma_entry_deterministic(
    e1: CLangEntry,
    e2: CLangEntry,
    file: Seq<char>,
    includes: Seq<Seq<char>>,
    flags: Seq<char>,
    exe: Seq<char>,
)
    requires
        entry_matches(e1, file, includes, flags, exe),
        entry_matches(e2, file, includes, flags, exe),
    ensures
        e1.directory@ == e2.directory@,
        e1.file@ == e2.file@,
        e1.command matches Some(c1) && (e2.command matches Some(c2) && c1@ == c2@),
{
}

} // verus!
