//! Per-branch preparation: normalizing the branch glob against the
//! working directory, compiling it, and merging the branch's flags and
//! include paths with the global defaults (global first, order kept).
use vstd::prelude::*;
use vstd::string::*;

use crate::model::{Branch, Config, GenError};
use crate::pattern::{glob_ok, pattern_tame, spec_pattern_tame, GlobPattern};
use crate::text::copy_strings;

verus! {

/// The branch glob anchored at the working directory: a pattern that does
/// not start with the path separator gets the working directory and a
/// separator prefixed.
pub open spec fn spec_normalized(b: Seq<char>, cwd: Seq<char>) -> Seq<char> {
    if b.len() > 0 && b[0] == '/' {
        b
    } else {
        cwd + seq!['/'] + b
    }
}

fn normalize_branch_glob(b: &str, cwd: &str) -> (r: String)
    ensures
        r@ == spec_normalized(b@, cwd@),
{
    let n = b.unicode_len();
    if n > 0 && b.get_char(0) == '/' {
        String::from_str(b)
    } else {
        let mut out = String::from_str(cwd);
        out.append("/");
        proof {
            reveal_strlit("/");
            assert("/"@ =~= seq!['/']);
        }
        out.append(b);
        out
    }
}

/// The global flags with the branch's appended after a single space; a
/// branch without flags leaves the global text as it is, and branch flags
/// against empty global text stand alone.
pub open spec fn spec_merge_flags(g: Seq<char>, b: Option<String>) -> Seq<char> {
    match b {
        None => g,
        Some(bf) => if g.len() > 0 {
            g + seq![' '] + bf@
        } else {
            bf@
        },
    }
}

pub fn merge_flags(global: &str, branch: &Option<String>) -> (r: String)
    ensures
        r@ == spec_merge_flags(global@, *branch),
{
    match branch {
        None => String::from_str(global),
        Some(bf) => {
            let mut out = String::from_str(global);
            if global.unicode_len() > 0 {
                out.append(" ");
                proof {
                    reveal_strlit(" ");
                    assert(" "@ =~= seq![' ']);
                }
            }
            out.append(bf.as_str());
            out
        },
    }
}

/// The global include paths with the branch's appended, order preserved.
pub open spec fn spec_merge_paths(g: Seq<String>, b: Option<Vec<String>>) -> Seq<String> {
    match b {
        None => g,
        Some(bp) => g + bp@,
    }
}

pub fn merge_paths(global: &Vec<String>, branch: &Option<Vec<String>>) -> (r: Vec<String>)
    ensures
        r@ == spec_merge_paths(global@, *branch),
{
    let mut out = copy_strings(global);
    match branch {
        None => out,
        Some(bp) => {
            let n = bp.len();
            let mut i: usize = 0;
            while i < n
                invariant
                    i <= n,
                    n == bp@.len(),
                    out@ == global@ + bp@.take(i as int),
                decreases n - i,
            {
                out.push(bp[i].clone());
                proof {
                    assert(out@ =~= global@ + bp@.take(i + 1));
                }
                i = i + 1;
            }
            proof {
                assert(global@ + bp@.take(n as int) =~= global@ + bp@);
            }
            out
        },
    }
}

/// A branch made ready for discovery: its compiled glob, the merged
/// flags and include paths, and its file-discovery strategy (`mask`
/// first, then `tool`, else the built-in default mask).
pub struct BranchPlan {
    pub pattern: GlobPattern,
    pub flags: String,
    pub paths: Vec<String>,
    pub mask: Option<Vec<String>>,
    pub tool: Option<String>,
}

/// Which file-discovery strategy a prepared branch uses.
pub enum Discovery {
    Mask,
    Tool,
    DefaultMask,
}

impl BranchPlan {
    /// The branch's discovery strategy: an explicit mask wins over a
    /// tool; with neither, the built-in default mask is used.
    pub fn discovery(&self) -> (r: Discovery)
        ensures
            self.mask is Some ==> r is Mask,
            self.mask is None && self.tool is Some ==> r is Tool,
            self.mask is None && self.tool is None ==> r is DefaultMask,
    {
        if self.mask.is_some() {
            Discovery::Mask
        } else if self.tool.is_some() {
            Discovery::Tool
        } else {
            Discovery::DefaultMask
        }
    }
}

/// Prepares one branch: normalizes and compiles its glob (a glob that is
/// malformed, or beyond the compilation bounds, is fatal) and merges
/// flags and include paths with the globals.
pub fn branch_prepare(branch: &Branch, global_flags: &str, global_paths: &Vec<String>, cwd: &str) -> (r:
    Result<BranchPlan, GenError>)
    ensures
        r is Ok <==> spec_pattern_tame(spec_normalized(branch.branch@, cwd@)) && glob_ok(
            spec_normalized(branch.branch@, cwd@),
        ),
        r matches Ok(p) ==> ({
            &&& p.pattern.pat() == spec_normalized(branch.branch@, cwd@)
            &&& p.flags@ == spec_merge_flags(global_flags@, branch.compile_flags)
            &&& p.paths@ == spec_merge_paths(global_paths@, branch.include_paths)
            &&& p.mask is Some <==> branch.mask is Some
            &&& p.mask matches Some(m) ==> (branch.mask matches Some(bm) && m@ == bm@)
            &&& p.tool is Some <==> branch.tool is Some
            &&& p.tool matches Some(t) ==> (branch.tool matches Some(bt) && t@ == bt@)
        }),
        r matches Err(e) ==> (e matches GenError::InvalidPattern { pattern, .. } && pattern@
            == spec_normalized(branch.branch@, cwd@)),
{
    let normalized = normalize_branch_glob(branch.branch.as_str(), cwd);
    if !pattern_tame(normalized.as_str()) {
        let detail = String::from_str("pattern nesting or size beyond the compilation bounds");
        return Err(GenError::InvalidPattern { pattern: normalized, detail });
    }
    let pattern = match GlobPattern::compile(normalized.as_str()) {
        Ok(g) => g,
        Err(detail) => {
            return Err(GenError::InvalidPattern { pattern: normalized, detail });
        },
    };
    let flags = merge_flags(global_flags, &branch.compile_flags);
    let paths = merge_paths(global_paths, &branch.include_paths);
    let mask = match &branch.mask {
        None => None,
        Some(m) => Some(copy_strings(m)),
    };
    let tool = match &branch.tool {
        None => None,
        Some(t) => Some(t.clone()),
    };
    Ok(BranchPlan { pattern, flags, paths, mask, tool })
}

/// The configuration's global flags and include paths, with the defaults
/// (empty text, no paths) filled in.
pub fn config_globals(config: &Config) -> (r: (String, Vec<String>))
    ensures
        r.0@ == match config.compile_flags {
            Some(f) => f@,
            None => Seq::<char>::empty(),
        },
        r.1@ == match config.include_paths {
            Some(p) => p@,
            None => Seq::<String>::empty(),
        },
{
    let flags = match &config.compile_flags {
        Some(f) => f.clone(),
        None => String::new(),
    };
    let paths = match &config.include_paths {
        Some(p) => copy_strings(p),
        None => Vec::new(),
    };
    proof {
        if config.include_paths is None {
            assert(paths@ =~= Seq::<String>::empty());
        }
    }
    (flags, paths)
}

} // verus!
