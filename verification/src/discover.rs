//! Directory and file discovery over a snapshot of the source tree.
//!
//! The driver hands the pipeline a [`DirTree`]: the directories below the
//! working directory (symbolic links not followed, unreadable entries
//! left out — listing errors are tolerated, best-effort). Discovery then
//! runs on that snapshot: a directory matching the branch glob becomes a
//! candidate and its subtree is pruned; files are selected from a
//! candidate's immediate entries by glob masks.
use vstd::prelude::*;
use vstd::string::*;

use crate::pattern::{glob_match, glob_ok, pattern_tame, spec_pattern_tame, GlobPattern};
use crate::text::{copy_strings, spec_path_join};

verus! {

/// A snapshot of one directory: its absolute path, the names of its
/// immediate entries (files are matched by name, whatever their kind),
/// and its subdirectories.
pub struct DirTree {
    pub path: String,
    pub files: Vec<String>,
    pub subdirs: Vec<DirTree>,
}

/// A directory selected by a branch glob: its path and its immediate
/// file names, copied out of the snapshot.
pub struct Candidate {
    pub path: String,
    pub files: Vec<String>,
}

/// What discovery reads of a candidate: the path text and the file names.
pub open spec fn cand_view(c: Candidate) -> (Seq<char>, Seq<Seq<char>>) {
    (c.path@, c.files.deep_view())
}

pub open spec fn cands_view(cs: Seq<Candidate>) -> Seq<(Seq<char>, Seq<Seq<char>>)> {
    cs.map_values(|c: Candidate| cand_view(c))
}

/// The candidates a walk of the forest `ts` yields for pattern `pat`, in
/// walk order: a matching directory is emitted and its subtree pruned; a
/// non-matching one is descended into.
pub open spec fn walk_cands(ts: Seq<DirTree>, pat: Seq<char>) -> Seq<(Seq<char>, Seq<Seq<char>>)>
    decreases ts,
{
    if ts.len() == 0 {
        Seq::empty()
    } else {
        step_cand(ts[0], pat) + walk_cands(ts.drop_first(), pat)
    }
}

/// The candidates one directory contributes: itself when it matches,
/// otherwise whatever its subtree yields.
pub open spec fn step_cand(t: DirTree, pat: Seq<char>) -> Seq<(Seq<char>, Seq<Seq<char>>)>
    decreases t,
{
    if glob_match(pat, t.path@) {
        seq![(t.path@, t.files.deep_view())]
    } else {
        walk_cands(t.subdirs@, pat)
    }
}

/// The number of directories in one snapshot subtree, the walk's work
/// measure.
pub open spec fn tree_size(t: DirTree) -> nat
    decreases t,
{
    1 + forest_size(t.subdirs@)
}

/// The number of directories in a snapshot forest.
pub open spec fn forest_size(ts: Seq<DirTree>) -> nat
    decreases ts,
{
    if ts.len() == 0 {
        0
    } else {
        tree_size(ts[0]) + forest_size(ts.drop_first())
    }
}

proof fn lemma_suffix_step(ts: Seq<DirTree>, i: int, pat: Seq<char>)
    requires
        0 <= i < ts.len(),
    ensures
        walk_cands(ts.skip(i), pat) == step_cand(ts[i], pat) + walk_cands(ts.skip(i + 1), pat),
        forest_size(ts.skip(i)) == tree_size(ts[i]) + forest_size(ts.skip(i + 1)),
{
    assert(ts.skip(i).len() == ts.len() - i);
    assert(ts.skip(i)[0] == ts[i]);
    assert(ts.skip(i).drop_first() =~= ts.skip(i + 1));
}

/// A work-list frame: a directory of the snapshot and the index of its
/// next subdirectory still to visit.
type WalkFrame<'a> = (&'a DirTree, usize);

/// What the walk still owes for a work-list: for each frame, top first,
/// the candidates of the subdirectories not yet visited.
pub open spec fn stack_pending<'a>(st: Seq<WalkFrame<'a>>, pat: Seq<char>) -> Seq<
    (Seq<char>, Seq<Seq<char>>),
>
    decreases st.len(),
{
    if st.len() == 0 {
        Seq::empty()
    } else {
        walk_cands(st.last().0.subdirs@.skip(st.last().1 as int), pat) + stack_pending(
            st.drop_last(),
            pat,
        )
    }
}

/// The work left in a work-list: directories still to visit, weighted,
/// plus the frames still to retire.
pub open spec fn stack_work<'a>(st: Seq<WalkFrame<'a>>) -> nat
    decreases st.len(),
{
    if st.len() == 0 {
        0
    } else {
        2 * forest_size(st.last().0.subdirs@.skip(st.last().1 as int)) + 1 + stack_work(
            st.drop_last(),
        )
    }
}

/// Walks the snapshot's subdirectories with an explicit work-list (no
/// call-stack recursion, however deep the tree) and appends every
/// directory the pattern selects, pruning at the first match: a matched
/// directory's descendants are not explored further. The root itself is
/// never tested.
pub fn find_directories<'a>(
    tree: &'a DirTree,
    pattern: &GlobPattern,
    candidates: &mut Vec<Candidate>,
)
    ensures
        cands_view(final(candidates)@) == cands_view(old(candidates)@) + walk_cands(
            tree.subdirs@,
            pattern.pat(),
        ),
{
    let ghost pat = pattern.pat();
    let mut stack: Vec<WalkFrame<'a>> = Vec::new();
    stack.push((tree, 0));
    proof {
        assert(stack@.last() == (tree, 0usize));
        assert(stack@.drop_last() =~= Seq::<WalkFrame<'a>>::empty());
        assert(stack_pending(stack@.drop_last(), pat) =~= Seq::<(Seq<char>, Seq<Seq<char>>)>::empty());
        assert(tree.subdirs@.skip(0) =~= tree.subdirs@);
        assert(stack_pending(stack@, pat) == walk_cands(tree.subdirs@.skip(0), pat)
            + stack_pending(stack@.drop_last(), pat));
        assert(stack_pending(stack@, pat) =~= walk_cands(tree.subdirs@, pat));
    }
    while stack.len() > 0
        invariant
            pat == pattern.pat(),
            forall|j: int|
                0 <= j < stack@.len() ==> #[trigger] stack@[j].1 <= stack@[j].0.subdirs@.len(),
            cands_view(candidates@) + stack_pending(stack@, pat) == cands_view(old(candidates)@)
                + walk_cands(tree.subdirs@, pat),
        decreases stack_work(stack@),
    {
        let ghost st0 = stack@;
        let popped = stack.pop();
        let (node, idx) = popped.unwrap();
        proof {
            assert(stack@ =~= st0.drop_last());
            assert(st0.last() == (node, idx));
        }
        if idx < node.subdirs.len() {
            let child = &node.subdirs[idx];
            stack.push((node, idx + 1));
            let ghost st1 = stack@;
            proof {
                lemma_suffix_step(node.subdirs@, idx as int, pat);
                assert(st1.last() == (node, (idx + 1) as usize));
                assert(st1.drop_last() =~= st0.drop_last());
                assert(stack_pending(st1, pat) == walk_cands(
                    node.subdirs@.skip(idx + 1),
                    pat,
                ) + stack_pending(st0.drop_last(), pat));
                assert(stack_work(st0) == 2 * forest_size(node.subdirs@.skip(idx as int)) + 1
                    + stack_work(st0.drop_last()));
                assert(stack_work(st1) == 2 * forest_size(node.subdirs@.skip(idx + 1)) + 1
                    + stack_work(st0.drop_last()));
                assert(tree_size(node.subdirs@[idx as int]) == 1 + forest_size(
                    node.subdirs@[idx as int].subdirs@,
                ));
            }
            if pattern.is_match(child.path.as_str()) {
                let ghost prev = candidates@;
                let c = Candidate { path: child.path.clone(), files: copy_strings(&child.files) };
                proof {
                    assert(cand_view(c) == (child.path@, child.files.deep_view()));
                }
                candidates.push(c);
                proof {
                    assert(cands_view(candidates@) =~= cands_view(prev) + step_cand(
                        node.subdirs@[idx as int],
                        pat,
                    ));
                    assert(cands_view(prev) + step_cand(node.subdirs@[idx as int], pat)
                        + stack_pending(st1, pat) =~= cands_view(prev) + (step_cand(
                        node.subdirs@[idx as int],
                        pat,
                    ) + walk_cands(node.subdirs@.skip(idx + 1), pat) + stack_pending(
                        st0.drop_last(),
                        pat,
                    )));
                }
            } else {
                stack.push((child, 0));
                proof {
                    assert(stack@.last() == (child, 0usize));
                    assert(stack@.drop_last() =~= st1);
                    assert(child.subdirs@.skip(0) =~= child.subdirs@);
                    assert(stack_pending(stack@, pat) == walk_cands(child.subdirs@, pat)
                        + stack_pending(st1, pat));
                    assert(stack_work(stack@) == 2 * forest_size(child.subdirs@.skip(0)) + 1
                        + stack_work(st1));
                    assert(forest_size(child.subdirs@.skip(0)) == forest_size(child.subdirs@));
                    assert(step_cand(node.subdirs@[idx as int], pat) == walk_cands(
                        child.subdirs@,
                        pat,
                    ));
                    assert(cands_view(candidates@) + stack_pending(stack@, pat) =~= cands_view(
                        candidates@,
                    ) + (step_cand(node.subdirs@[idx as int], pat) + walk_cands(
                        node.subdirs@.skip(idx + 1),
                        pat,
                    ) + stack_pending(st0.drop_last(), pat)));
                }
            }
            proof {
                assert(walk_cands(node.subdirs@.skip(idx as int), pat) + stack_pending(
                    st0.drop_last(),
                    pat,
                ) =~= step_cand(node.subdirs@[idx as int], pat) + walk_cands(
                    node.subdirs@.skip(idx + 1),
                    pat,
                ) + stack_pending(st0.drop_last(), pat));
            }
        } else {
            proof {
                assert(idx == node.subdirs@.len());
                assert(node.subdirs@.skip(idx as int) =~= Seq::<DirTree>::empty());
                assert(walk_cands(node.subdirs@.skip(idx as int), pat) =~= Seq::<
                    (Seq<char>, Seq<Seq<char>>),
                >::empty());
                assert(forest_size(node.subdirs@.skip(idx as int)) == 0);
                assert(stack_work(st0) == 2 * forest_size(node.subdirs@.skip(idx as int)) + 1
                    + stack_work(st0.drop_last()));
            }
        }
    }
    proof {
        assert(stack_pending(stack@, pat) =~= Seq::<(Seq<char>, Seq<Seq<char>>)>::empty());
        assert(cands_view(candidates@) + Seq::<(Seq<char>, Seq<Seq<char>>)>::empty()
            =~= cands_view(candidates@));
    }
}

/// The built-in file mask used when a branch names neither `mask` nor
/// `tool`: the common C/C++ source extensions.
pub fn default_mask() -> (r: Vec<String>)
    ensures
        r.deep_view() =~= seq!["*.c"@, "*.C"@, "*.cc"@, "*.cpp"@, "*.cxx"@, "*.c++"@],
{
    let mut out: Vec<String> = Vec::new();
    out.push(String::from_str("*.c"));
    out.push(String::from_str("*.C"));
    out.push(String::from_str("*.cc"));
    out.push(String::from_str("*.cpp"));
    out.push(String::from_str("*.cxx"));
    out.push(String::from_str("*.c++"));
    out
}

/// The pattern texts of `masks`, in order, that are within the
/// compilation bounds and parse as globs: other mask entries are
/// dropped, not fatal.
pub open spec fn valid_masks(ms: Seq<Seq<char>>, i: int) -> Seq<Seq<char>>
    decreases ms.len() - i,
{
    if i < 0 || i >= ms.len() {
        Seq::empty()
    } else if spec_pattern_tame(ms[i]) && glob_ok(ms[i]) {
        seq![ms[i]] + valid_masks(ms, i + 1)
    } else {
        valid_masks(ms, i + 1)
    }
}

/// Compiles a mask list, silently dropping entries that do not parse or
/// are beyond the compilation bounds.
pub fn compile_masks(masks: &Vec<String>) -> (r: Vec<GlobPattern>)
    ensures
        r@.map_values(|g: GlobPattern| g.pat()) == valid_masks(masks.deep_view(), 0),
{
    let mut out: Vec<GlobPattern> = Vec::new();
    let n = masks.len();
    let mut i: usize = 0;
    proof {
        assert(out@.map_values(|g: GlobPattern| g.pat()) =~= Seq::<Seq<char>>::empty());
    }
    while i < n
        invariant
            i <= n,
            n == masks@.len(),
            valid_masks(masks.deep_view(), 0) == out@.map_values(|g: GlobPattern| g.pat())
                + valid_masks(masks.deep_view(), i as int),
        decreases n - i,
    {
        let ghost prev = out@.map_values(|g: GlobPattern| g.pat());
        if pattern_tame(masks[i].as_str()) {
            match GlobPattern::compile(masks[i].as_str()) {
                Ok(g) => {
                    out.push(g);
                    proof {
                        assert(out@.map_values(|g: GlobPattern| g.pat()) =~= prev.push(
                            masks.deep_view()[i as int],
                        ));
                        assert(seq![masks.deep_view()[i as int]] + valid_masks(
                            masks.deep_view(),
                            i + 1,
                        ) =~= Seq::<Seq<char>>::empty().push(masks.deep_view()[i as int])
                            + valid_masks(masks.deep_view(), i + 1));
                        assert(prev.push(masks.deep_view()[i as int]) + valid_masks(
                            masks.deep_view(),
                            i + 1,
                        ) =~= prev + (seq![masks.deep_view()[i as int]] + valid_masks(
                            masks.deep_view(),
                            i + 1,
                        )));
                    }
                },
                Err(_) => {},
            }
        }
        i = i + 1;
    }
    out
}

/// Whether any of the patterns matches the name.
pub open spec fn spec_any_match(pats: Seq<Seq<char>>, name: Seq<char>) -> bool {
    exists|j: int| 0 <= j < pats.len() && glob_match(pats[j], name)
}

fn any_match(masks: &Vec<GlobPattern>, name: &str) -> (r: bool)
    ensures
        r == spec_any_match(masks@.map_values(|g: GlobPattern| g.pat()), name@),
{
    let ghost pats = masks@.map_values(|g: GlobPattern| g.pat());
    let n = masks.len();
    let mut j: usize = 0;
    while j < n
        invariant
            j <= n,
            n == masks@.len(),
            pats == masks@.map_values(|g: GlobPattern| g.pat()),
            forall|k: int| 0 <= k < j ==> !glob_match(#[trigger] masks@[k].pat(), name@),
        decreases n - j,
    {
        if masks[j].is_match(name) {
            proof {
                assert(pats[j as int] == masks@[j as int].pat());
            }
            return true;
        }
        j = j + 1;
    }
    proof {
        assert forall|k: int| 0 <= k < pats.len() implies !glob_match(pats[k], name@) by {
            assert(pats[k] == masks@[k].pat());
        }
    }
    false
}

/// The immediate files of a directory that a mask list selects: each name
/// matching some mask, joined onto the directory path, in listing order.
pub open spec fn spec_scan(
    dir: Seq<char>,
    names: Seq<Seq<char>>,
    pats: Seq<Seq<char>>,
    i: int,
) -> Seq<Seq<char>>
    decreases names.len() - i,
{
    if i < 0 || i >= names.len() {
        Seq::empty()
    } else if spec_any_match(pats, names[i]) {
        seq![spec_path_join(dir, names[i])] + spec_scan(dir, names, pats, i + 1)
    } else {
        spec_scan(dir, names, pats, i + 1)
    }
}

/// Selects from a directory's immediate entries the file names matching
/// any of the compiled masks, returning full paths in listing order.
pub fn scan_files(dir: &str, names: &Vec<String>, masks: &Vec<GlobPattern>, files: &mut Vec<String>)
    ensures
        final(files).deep_view() == old(files).deep_view() + spec_scan(
            dir@,
            names.deep_view(),
            masks@.map_values(|g: GlobPattern| g.pat()),
            0,
        ),
{
    let ghost pats = masks@.map_values(|g: GlobPattern| g.pat());
    let n = names.len();
    let mut i: usize = 0;
    proof {
        assert(files.deep_view() =~= files.deep_view() + Seq::<Seq<char>>::empty());
    }
    while i < n
        invariant
            i <= n,
            n == names@.len(),
            pats == masks@.map_values(|g: GlobPattern| g.pat()),
            old(files).deep_view() + spec_scan(dir@, names.deep_view(), pats, 0)
                == files.deep_view() + spec_scan(dir@, names.deep_view(), pats, i as int),
        decreases n - i,
    {
        let ghost prev = files.deep_view();
        if any_match(masks, names[i].as_str()) {
            let full = crate::text::path_join(dir, names[i].as_str());
            files.push(full);
            proof {
                assert(files.deep_view() =~= prev.push(
                    spec_path_join(dir@, names.deep_view()[i as int]),
                ));
                assert(prev + spec_scan(dir@, names.deep_view(), pats, i as int)
                    =~= files.deep_view() + spec_scan(dir@, names.deep_view(), pats, i + 1));
            }
        }
        i = i + 1;
    }
}

/// The files a mask list selects across a list of candidate views (path
/// and file names), in candidate order then listing order.
pub open spec fn spec_scan_all(
    cs: Seq<(Seq<char>, Seq<Seq<char>>)>,
    pats: Seq<Seq<char>>,
    i: int,
) -> Seq<Seq<char>>
    decreases cs.len() - i,
{
    if i < 0 || i >= cs.len() {
        Seq::empty()
    } else {
        spec_scan(cs[i].0, cs[i].1, pats, 0) + spec_scan_all(cs, pats, i + 1)
    }
}

/// Scans every candidate directory with the compiled masks, appending the
/// selected files in candidate order.
pub fn scan_candidates(cands: &Vec<Candidate>, masks: &Vec<GlobPattern>, files: &mut Vec<String>)
    ensures
        final(files).deep_view() == old(files).deep_view() + spec_scan_all(
            cands_view(cands@),
            masks@.map_values(|g: GlobPattern| g.pat()),
            0,
        ),
{
    let ghost pats = masks@.map_values(|g: GlobPattern| g.pat());
    let ghost cv = cands_view(cands@);
    let n = cands.len();
    let mut i: usize = 0;
    proof {
        assert(cv.len() == cands@.len());
        assert(files.deep_view() =~= files.deep_view() + Seq::<Seq<char>>::empty());
    }
    while i < n
        invariant
            i <= n,
            n == cands@.len(),
            pats == masks@.map_values(|g: GlobPattern| g.pat()),
            cv == cands_view(cands@),
            cv.len() == cands@.len(),
            old(files).deep_view() + spec_scan_all(cv, pats, 0) == files.deep_view()
                + spec_scan_all(cv, pats, i as int),
        decreases n - i,
    {
        let ghost prev = files.deep_view();
        scan_files(cands[i].path.as_str(), &cands[i].files, masks, files);
        proof {
            assert(cv[i as int] == cand_view(cands@[i as int]));
            assert(prev + spec_scan_all(cv, pats, i as int) =~= files.deep_view()
                + spec_scan_all(cv, pats, i + 1));
        }
        i = i + 1;
    }
}

/// Static discovery for one branch, whole: the files in the directories
/// the branch glob selects (walk order, pruned at matches) whose names
/// the masks select, non-recursively, as full paths.
pub fn discover_branch_files(tree: &DirTree, pattern: &GlobPattern, masks: &Vec<GlobPattern>) -> (r:
    Vec<String>)
    ensures
        r.deep_view() == spec_scan_all(
            walk_cands(tree.subdirs@, pattern.pat()),
            masks@.map_values(|g: GlobPattern| g.pat()),
            0,
        ),
{
    let mut candidates: Vec<Candidate> = Vec::new();
    find_directories(tree, pattern, &mut candidates);
    proof {
        assert(cands_view(candidates@) =~= walk_cands(tree.subdirs@, pattern.pat()));
    }
    let mut files: Vec<String> = Vec::new();
    scan_candidates(&candidates, masks, &mut files);
    proof {
        assert(files.deep_view() =~= spec_scan_all(
            walk_cands(tree.subdirs@, pattern.pat()),
            masks@.map_values(|g: GlobPattern| g.pat()),
            0,
        ));
    }
    files
}

} // verus!
