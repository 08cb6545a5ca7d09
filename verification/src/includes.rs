//! Per-file resolution of include paths. The policy reads the path's
//! first component: an absolute path is kept as it is; one that starts
//! with an explicit `.` or `..` component is anchored to the source
//! file's directory; any other relative path is anchored to the working
//! directory. Anchored paths still need canonicalization, which only the
//! filesystem can answer; the driver supplies those answers.
use vstd::prelude::*;
use vstd::string::*;

use crate::model::GenError;
use crate::text::spec_path_join;

verus! {

/// Where an include path is anchored.
pub enum IncludeAnchor {
    /// Already absolute: kept unchanged.
    Root,
    /// A bare relative fragment: anchored to the working directory.
    Cwd,
    /// Starts with `.` or `..`: anchored to the source file's directory.
    FileDir,
}

/// Classifies an include path by its first component. The empty path has
/// no leading normal component and falls to the file's directory.
pub open spec fn spec_classify(p: Seq<char>) -> IncludeAnchor {
    if p.len() > 0 && p[0] == '/' {
        IncludeAnchor::Root
    } else if p.len() == 0 || (p.len() == 1 && p[0] == '.') || (p.len() >= 2 && p[0] == '.' && p[1]
        == '/') || (p.len() == 2 && p[0] == '.' && p[1] == '.') || (p.len() >= 3 && p[0] == '.'
        && p[1] == '.' && p[2] == '/') {
        IncludeAnchor::FileDir
    } else {
        IncludeAnchor::Cwd
    }
}

pub fn classify(p: &str) -> (r: IncludeAnchor)
    ensures
        r == spec_classify(p@),
{
    let n = p.unicode_len();
    if n > 0 && p.get_char(0) == '/' {
        IncludeAnchor::Root
    } else if n == 0 {
        IncludeAnchor::FileDir
    } else if p.get_char(0) == '.' {
        if n == 1 {
            IncludeAnchor::FileDir
        } else if p.get_char(1) == '/' {
            IncludeAnchor::FileDir
        } else if p.get_char(1) == '.' && (n == 2 || p.get_char(2) == '/') {
            IncludeAnchor::FileDir
        } else {
            IncludeAnchor::Cwd
        }
    } else {
        IncludeAnchor::Cwd
    }
}

/// How one include path is to be resolved for one source file.
pub enum IncludePlan {
    /// Already absolute: used as it stands, no filesystem work.
    Ready { path: String },
    /// Needs canonicalization of `joined` (the anchor with the path
    /// appended); `path` keeps the original text for diagnostics.
    Canon { path: String, anchor: String, joined: String },
}

/// What a plan should be for path `p`, as pairs of anchor and joined text;
/// `None` stands for an absolute path kept unchanged.
pub open spec fn spec_plan(p: Seq<char>, file_dir: Seq<char>, cwd: Seq<char>) -> Option<
    (Seq<char>, Seq<char>),
> {
    match spec_classify(p) {
        IncludeAnchor::Root => None,
        IncludeAnchor::Cwd => Some((cwd, spec_path_join(cwd, p))),
        IncludeAnchor::FileDir => Some((file_dir, spec_path_join(file_dir, p))),
    }
}

pub open spec fn plan_matches(plan: IncludePlan, p: Seq<char>, file_dir: Seq<char>, cwd: Seq<char>) -> bool {
    match spec_plan(p, file_dir, cwd) {
        None => plan matches IncludePlan::Ready { path } && path@ == p,
        Some((a, j)) => plan matches IncludePlan::Canon { path, anchor, joined } && path@ == p
            && anchor@ == a && joined@ == j,
    }
}

/// Lays out the resolution of every include path for one source file,
/// anchoring each against that specific file.
pub fn plan_includes(paths: &Vec<String>, file_dir: &str, cwd: &str) -> (r: Vec<IncludePlan>)
    ensures
        r@.len() == paths@.len(),
        forall|i: int|
            0 <= i < r@.len() ==> plan_matches(#[trigger] r@[i], paths.deep_view()[i], file_dir@, cwd@),
{
    let n = paths.len();
    let mut out: Vec<IncludePlan> = Vec::new();
    let mut i: usize = 0;
    while i < n
        invariant
            i <= n,
            n == paths@.len(),
            out@.len() == i,
            forall|k: int|
                0 <= k < i ==> plan_matches(#[trigger] out@[k], paths.deep_view()[k], file_dir@, cwd@),
        decreases n - i,
    {
        let p = &paths[i];
        let plan = match classify(p.as_str()) {
            IncludeAnchor::Root => IncludePlan::Ready { path: p.clone() },
            IncludeAnchor::Cwd => IncludePlan::Canon {
                path: p.clone(),
                anchor: String::from_str(cwd),
                joined: crate::text::path_join(cwd, p.as_str()),
            },
            IncludeAnchor::FileDir => IncludePlan::Canon {
                path: p.clone(),
                anchor: String::from_str(file_dir),
                joined: crate::text::path_join(file_dir, p.as_str()),
            },
        };
        out.push(plan);
        i = i + 1;
    }
    out
}

/// The first plan index whose canonicalization failed, or -1.
pub open spec fn first_unresolved(plans: Seq<IncludePlan>, answers: Seq<Option<String>>, i: int) -> int
    decreases plans.len() - i,
{
    if i < 0 || i >= plans.len() {
        -1
    } else if plans[i] is Canon && answers[i] is None {
        i
    } else {
        first_unresolved(plans, answers, i + 1)
    }
}

/// The resolved include path at index `i`: the answer for an anchored
/// path, the path itself for an absolute one.
pub open spec fn spec_resolved_at(plans: Seq<IncludePlan>, answers: Seq<Option<String>>, i: int) -> Seq<char> {
    match plans[i] {
        IncludePlan::Ready { path } => path@,
        IncludePlan::Canon { .. } => answers[i]->0@,
    }
}

/// Combines the plans with the driver's canonicalization answers. A
/// missing answer for an anchored path is fatal: resolution requires the
/// joined path to exist, and the error carries the offending path and the
/// anchor it was resolved from. The first failure, in path order, wins.
pub fn finish_includes(plans: &Vec<IncludePlan>, answers: &Vec<Option<String>>) -> (r: Result<
    Vec<String>,
    GenError,
>)
    requires
        plans@.len() == answers@.len(),
    ensures
        r is Ok <==> first_unresolved(plans@, answers@, 0) == -1,
        r matches Ok(v) ==> v@.len() == plans@.len() && forall|i: int|
            0 <= i < plans@.len() ==> #[trigger] v.deep_view()[i] == spec_resolved_at(
                plans@,
                answers@,
                i,
            ),
        r matches Err(e) ==> ({
            let k = first_unresolved(plans@, answers@, 0);
            &&& e matches GenError::PathResolution { path, base }
            &&& plans@[k] matches IncludePlan::Canon { path: p, anchor: a, .. }
            &&& path@ == p@
            &&& base@ == a@
        }),
{
    let n = plans.len();
    let mut out: Vec<String> = Vec::new();
    let mut i: usize = 0;
    while i < n
        invariant
            i <= n,
            n == plans@.len(),
            plans@.len() == answers@.len(),
            out@.len() == i,
            first_unresolved(plans@, answers@, 0) == first_unresolved(plans@, answers@, i as int),
            forall|k: int|
                0 <= k < i ==> #[trigger] out.deep_view()[k] == spec_resolved_at(plans@, answers@, k),
        decreases n - i,
    {
        let ghost prev = out.deep_view();
        match &plans[i] {
            IncludePlan::Ready { path } => {
                out.push(path.clone());
                proof {
                    assert(out.deep_view() =~= prev.push(spec_resolved_at(plans@, answers@, i as int)));
                }
            },
            IncludePlan::Canon { path, anchor, .. } => {
                match &answers[i] {
                    Some(c) => {
                        out.push(c.clone());
                        proof {
                            assert(out.deep_view() =~= prev.push(
                                spec_resolved_at(plans@, answers@, i as int),
                            ));
                        }
                    },
                    None => {
                        return Err(GenError::PathResolution {
                            path: path.clone(),
                            base: anchor.clone(),
                        });
                    },
                }
            },
        }
        i = i + 1;
    }
    Ok(out)
}

} // verus!
