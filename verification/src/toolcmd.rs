//! File discovery through an external tool. The tool's command line is
//! split on whitespace into a program and its arguments — no shell
//! quoting is supported, deliberately. The driver runs the process in the
//! candidate directory and hands back its exit status and captured
//! output; the pipeline turns a success into candidate file paths and a
//! failure into a fatal error that keeps the captured output.
use vstd::prelude::*;
use vstd::string::*;

use crate::model::GenError;
use crate::text::{spec_path_join, split_ws, split_whitespace_tokens};

verus! {

/// Splits a tool command line into program name and arguments on
/// whitespace. An empty command line has no program: `None`.
pub fn tool_command(tool: &str) -> (r: Option<(String, Vec<String>)>)
    ensures
        r is Some <==> split_ws(tool@).len() > 0,
        r matches Some((cmd, args)) ==> cmd@ == split_ws(tool@)[0] && args.deep_view() == split_ws(
            tool@,
        ).drop_first(),
{
    let mut toks = split_whitespace_tokens(tool);
    if toks.len() == 0 {
        return None;
    }
    let cmd = toks.remove(0);
    proof {
        assert(toks.deep_view() =~= split_ws(tool@).drop_first());
    }
    Some((cmd, toks))
}

/// Where each stdout token of a successful tool run points: a token that
/// starts at the path root is kept; any other is taken relative to the
/// directory the tool ran in.
pub open spec fn spec_tool_file(dir: Seq<char>, tok: Seq<char>) -> Seq<char> {
    if tok.len() > 0 && tok[0] == '/' {
        tok
    } else {
        spec_path_join(dir, tok)
    }
}

pub open spec fn spec_tool_files(stdout: Seq<char>, dir: Seq<char>) -> Seq<Seq<char>> {
    split_ws(stdout).map_values(|t: Seq<char>| spec_tool_file(dir, t))
}

/// Turns a finished tool run into candidate file paths, or into the fatal
/// error that carries the tool's exit code and captured output. The
/// driver still has to drop candidates that do not exist and
/// canonicalize the rest; both need the filesystem.
pub fn tool_outcome(
    tool: &str,
    exit_ok: bool,
    exit_code: i32,
    stdout: &str,
    stderr: &str,
    dir: &str,
) -> (r: Result<Vec<String>, GenError>)
    ensures
        r is Ok <==> exit_ok,
        r matches Ok(v) ==> v.deep_view() == spec_tool_files(stdout@, dir@),
        r matches Err(e) ==> e matches GenError::ToolFailed { tool: t, code, stdout: o, stderr: s }
            && t@ == tool@ && code == exit_code && o@ == stdout@ && s@ == stderr@,
{
    if !exit_ok {
        return Err(GenError::ToolFailed {
            tool: String::from_str(tool),
            code: exit_code,
            stdout: String::from_str(stdout),
            stderr: String::from_str(stderr),
        });
    }
    let toks = split_whitespace_tokens(stdout);
    let n = toks.len();
    let mut out: Vec<String> = Vec::new();
    let mut i: usize = 0;
    while i < n
        invariant
            i <= n,
            n == toks@.len(),
            toks.deep_view() == split_ws(stdout@),
            out.deep_view() =~= split_ws(stdout@).take(i as int).map_values(
                |t: Seq<char>| spec_tool_file(dir@, t),
            ),
        decreases n - i,
    {
        let ghost prev = out.deep_view();
        let tok = &toks[i];
        let tn = tok.as_str().unicode_len();
        if tn > 0 && tok.as_str().get_char(0) == '/' {
            out.push(tok.clone());
        } else {
            out.push(crate::text::path_join(dir, tok.as_str()));
        }
        proof {
            assert(out.deep_view() =~= prev.push(spec_tool_file(dir@, toks.deep_view()[i as int])));
            assert(split_ws(stdout@).take(i + 1) =~= split_ws(stdout@).take(i as int).push(
                split_ws(stdout@)[i as int],
            ));
            assert(out.deep_view() =~= split_ws(stdout@).take(i + 1).map_values(
                |t: Seq<char>| spec_tool_file(dir@, t),
            ));
        }
        i = i + 1;
    }
    proof {
        assert(split_ws(stdout@).take(n as int) =~= split_ws(stdout@));
    }
    Ok(out)
}

} // verus!
