//! Glob matching, through the `globset` crate. A compiled pattern carries
//! the text it was compiled from, so that contracts can speak of the
//! match verdict as a function of pattern text and path text alone.
use vstd::prelude::*;

verus! {

/// Whether `globset` accepts the pattern text as a well-formed glob
/// (with its default options).
pub uninterp spec fn glob_ok(pattern: Seq<char>) -> bool;

/// The verdict of `globset` glob matching: whether the pattern, compiled
/// with its default options (the Unix ones; the library fixes Unix path
/// conventions throughout), matches the path text.
pub uninterp spec fn glob_match(pattern: Seq<char>, path: Seq<char>) -> bool;

/// Bounds under which compiling a parsed glob stays well clear of the
/// regex engine's internal limits (an expression-nesting cap of 250 and
/// an automaton size cap in the megabytes), which compiling a glob past
/// them hits by panicking. A pattern this short, with brace alternations
/// this shallow, derives a regex far inside both caps.
pub const MAX_PATTERN_LEN: usize = 1024;

pub const MAX_BRACE_DEPTH: usize = 25;

/// The highest value the running count of open brace alternations
/// reaches from position `i` on, starting at `open`; a closer never
/// takes the count below zero, as the glob parser's stack has it.
pub open spec fn spec_brace_peak(p: Seq<char>, i: int, open: int) -> int
    decreases p.len() - i,
{
    if i < 0 || i >= p.len() {
        open
    } else {
        let next = if p[i] == '{' {
            open + 1
        } else if p[i] == '}' && open > 0 {
            open - 1
        } else {
            open
        };
        let rest = spec_brace_peak(p, i + 1, next);
        if open > rest {
            open
        } else {
            rest
        }
    }
}

/// Whether a pattern is small and flat enough to compile without
/// reaching the regex engine's internal limits.
pub open spec fn spec_pattern_tame(p: Seq<char>) -> bool {
    p.len() <= MAX_PATTERN_LEN && spec_brace_peak(p, 0, 0) <= MAX_BRACE_DEPTH as int
}

/// Decides whether a pattern is within the compilation bounds.
pub fn pattern_tame(p: &str) -> (r: bool)
    ensures
        r == spec_pattern_tame(p@),
{
    let n = p.unicode_len();
    if n > MAX_PATTERN_LEN {
        return false;
    }
    let mut open: usize = 0;
    let mut best: usize = 0;
    let mut i: usize = 0;
    while i < n
        invariant
            i <= n,
            n == p@.len(),
            n <= MAX_PATTERN_LEN,
            open <= i,
            best <= n,
            spec_brace_peak(p@, 0, 0) == if best as int > spec_brace_peak(p@, i as int, open as int) {
                best as int
            } else {
                spec_brace_peak(p@, i as int, open as int)
            },
        decreases n - i,
    {
        let c = p.get_char(i);
        if best < open {
            best = open;
        }
        if c == '{' {
            open = open + 1;
        } else if c == '}' && open > 0 {
            open = open - 1;
        }
        i = i + 1;
    }
    if best < open {
        best = open;
    }
    best <= MAX_BRACE_DEPTH
}

#[verifier::external_type_specification]
#[verifier::external_body]
pub struct ExGlobMatcher(globset::GlobMatcher);

/// A glob matcher together with the pattern text it was compiled from.
pub struct GlobPattern {
    matcher: globset::GlobMatcher,
    pattern: String,
}

impl GlobPattern {
    /// The pattern text this matcher was compiled from.
    pub closed spec fn pat(&self) -> Seq<char> {
        self.pattern@
    }

    /// Relies on globset::Glob::new and Glob::compile_matcher: a pattern
    /// compiles to a matcher exactly when globset parses it as a glob;
    /// the error text is globset's own diagnostic. Glob::compile_matcher
    /// panics when the derived regex trips the regex engine's nesting or
    /// size limits, so callers must keep within the compilation bounds,
    /// which stay far inside both.
    #[verifier::external_body]
    pub fn compile(pattern: &str) -> (r: Result<GlobPattern, String>)
        requires
            spec_pattern_tame(pattern@),
        ensures
            r is Ok <==> glob_ok(pattern@),
            r matches Ok(g) ==> g.pat() == pattern@,
    {
        match globset::Glob::new(pattern) {
            Ok(g) => Ok(GlobPattern {
                matcher: g.compile_matcher(),
                pattern: pattern.to_string(),
            }),
            Err(e) => Err(e.to_string()),
        }
    }

    /// Relies on globset::GlobMatcher::is_match: the verdict is a function
    /// of the pattern text and the path text alone.
    #[verifier::external_body]
    pub fn is_match(&self, path: &str) -> (r: bool)
        ensures
            r == glob_match(self.pat(), path@),
    {
        self.matcher.is_match(path)
    }
}

} // verus!
