//! Synthesis of one compilation-database row per discovered file: the
//! file's directory and name, the object-file name derived from it, the
//! `-I` options joined with the merged flags, and the full command line.
use vstd::prelude::*;
use vstd::string::*;

use crate::model::{CLangEntry, GenError};
use crate::text::last_index_of;

verus! {

/// The file name with its extension replaced by `o`: the part after the
/// last dot is dropped when that dot is not the leading character,
/// and `.o` is appended.
pub open spec fn spec_object_name(name: Seq<char>) -> Seq<char> {
    let d = last_index_of(name, '.');
    if d <= 0 {
        name + seq!['.', 'o']
    } else {
        name.take(d) + seq!['.', 'o']
    }
}

pub fn object_name(name: &str) -> (r: String)
    ensures
        r@ == spec_object_name(name@),
{
    let n = name.unicode_len();
    proof {
        crate::text::lemma_last_index_of(name@, '.');
        reveal_strlit(".o");
        assert(".o"@ =~= seq!['.', 'o']);
    }
    let mut out: String;
    match crate::text::find_last(name, '.') {
        Some(d) if d > 0 => {
            out = String::from_str(name.substring_char(0, d));
            proof {
                assert(name@.subrange(0, d as int) =~= name@.take(d as int));
            }
        },
        _ => {
            out = String::from_str(name);
        },
    }
    out.append(".o");
    out
}

/// The parent directory and final name of a discovered file path: the
/// text before and after the last separator (a lone leading separator
/// leaves `/` as the parent). A path without a separator has no parent;
/// one ending in a separator has no file name. Both are fatal.
pub open spec fn spec_split_path(p: Seq<char>) -> Option<(Seq<char>, Seq<char>)> {
    let k = last_index_of(p, '/');
    if k == -1 {
        None
    } else if k + 1 == p.len() {
        None
    } else {
        Some((if k == 0 { seq!['/'] } else { p.take(k) }, p.subrange(k + 1, p.len() as int)))
    }
}

pub fn split_file_path(p: &str) -> (r: Result<(String, String), GenError>)
    ensures
        r is Ok <==> spec_split_path(p@) is Some,
        r matches Ok((dir, name)) ==> spec_split_path(p@) matches Some((d, n)) && dir@ == d
            && name@ == n,
        r matches Err(e) ==> ({
            let k = last_index_of(p@, '/');
            &&& k == -1 ==> (e matches GenError::NoParent { file } && file@ == p@)
            &&& k != -1 ==> (e matches GenError::NoFileName { file } && file@ == p@)
        }),
{
    let n = p.unicode_len();
    proof {
        crate::text::lemma_last_index_of(p@, '/');
        reveal_strlit("/");
        assert("/"@ =~= seq!['/']);
    }
    match crate::text::find_last(p, '/') {
        None => Err(GenError::NoParent { file: String::from_str(p) }),
        Some(k) => {
            if k + 1 == n {
                Err(GenError::NoFileName { file: String::from_str(p) })
            } else {
                let dir = if k == 0 {
                    String::from_str("/")
                } else {
                    let d = String::from_str(p.substring_char(0, k));
                    proof {
                        assert(p@.subrange(0, k as int) =~= p@.take(k as int));
                    }
                    d
                };
                let name = String::from_str(p.substring_char(k + 1, n));
                Ok((dir, name))
            }
        },
    }
}

/// The `-I` options text: `-I<path>` for each resolved include path, in
/// order, separated by single spaces, starting from `acc`.
pub open spec fn spec_inc_flags(paths: Seq<Seq<char>>, i: int, acc: Seq<char>) -> Seq<char>
    decreases paths.len() - i,
{
    if i < 0 || i >= paths.len() {
        acc
    } else {
        let piece = seq!['-', 'I'] + paths[i];
        let acc2 = if acc.len() > 0 {
            acc + seq![' '] + piece
        } else {
            piece
        };
        spec_inc_flags(paths, i + 1, acc2)
    }
}

/// The full options text: the `-I` options, then the merged flags,
/// separated by a space when both are non-empty.
pub open spec fn spec_options(paths: Seq<Seq<char>>, flags: Seq<char>) -> Seq<char> {
    let inc = spec_inc_flags(paths, 0, Seq::empty());
    if inc.len() > 0 && flags.len() > 0 {
        inc + seq![' '] + flags
    } else {
        inc + flags
    }
}

pub fn options_text(paths: &Vec<String>, flags: &str) -> (r: String)
    ensures
        r@ == spec_options(paths.deep_view(), flags@),
{
    proof {
        reveal_strlit(" ");
        reveal_strlit("-I");
        assert(" "@ =~= seq![' ']);
        assert("-I"@ =~= seq!['-', 'I']);
    }
    let n = paths.len();
    let mut out = String::new();
    let mut i: usize = 0;
    while i < n
        invariant
            i <= n,
            n == paths@.len(),
            spec_inc_flags(paths.deep_view(), 0, Seq::empty()) == spec_inc_flags(
                paths.deep_view(),
                i as int,
                out@,
            ),
        decreases n - i,
    {
        let ghost prev = out@;
        if out.as_str().unicode_len() > 0 {
            out.append(" ");
        }
        out.append("-I");
        out.append(paths[i].as_str());
        proof {
            reveal_strlit(" ");
            reveal_strlit("-I");
            assert(paths.deep_view()[i as int] == paths@[i as int]@);
            let piece = seq!['-', 'I'] + paths.deep_view()[i as int];
            if prev.len() > 0 {
                assert(out@ =~= prev + seq![' '] + piece);
            } else {
                assert(out@ =~= piece);
            }
        }
        i = i + 1;
    }
    if out.as_str().unicode_len() > 0 && flags.unicode_len() > 0 {
        out.append(" ");
    }
    out.append(flags);
    out
}

/// The synthesized compile command: compiler, options, `-c -o`, object
/// file, source file, single-space separated (two spaces are left when
/// the options text is empty, as plain joining has it).
pub open spec fn spec_command(
    exe: Seq<char>,
    options: Seq<char>,
    obj: Seq<char>,
    file: Seq<char>,
) -> Seq<char> {
    exe + seq![' '] + options + seq![' ', '-', 'c', ' ', '-', 'o', ' '] + obj + seq![' '] + file
}

pub fn command_text(exe: &str, options: &str, obj: &str, file: &str) -> (r: String)
    ensures
        r@ == spec_command(exe@, options@, obj@, file@),
{
    proof {
        reveal_strlit(" ");
        reveal_strlit(" -c -o ");
        assert(" "@ =~= seq![' ']);
        assert(" -c -o "@ =~= seq![' ', '-', 'c', ' ', '-', 'o', ' ']);
    }
    let mut out = String::from_str(exe);
    out.append(" ");
    out.append(options);
    out.append(" -c -o ");
    out.append(obj);
    out.append(" ");
    out.append(file);
    out
}

/// What the entry for a file must hold, given the resolved include paths,
/// the merged flags, and the chosen compiler.
pub open spec fn entry_matches(
    e: CLangEntry,
    file_path: Seq<char>,
    includes: Seq<Seq<char>>,
    flags: Seq<char>,
    exe: Seq<char>,
) -> bool {
    spec_split_path(file_path) matches Some((d, n)) && (e.directory@ == d && e.file@ == n && (
    e.command matches Some(c) && c@ == spec_command(
        exe,
        spec_options(includes, flags),
        spec_object_name(n),
        n,
    )))
}

/// Appends one branch's rows to the database: rows of earlier branches
/// first, then this branch's in their discovery order, nothing dropped
/// or deduplicated.
pub fn append_entries(db: &mut Vec<CLangEntry>, rows: Vec<CLangEntry>)
    ensures
        final(db)@ == old(db)@ + rows@,
{
    let mut moved = rows;
    db.append(&mut moved);
}

/// Builds the database row for one discovered file from the resolved
/// include paths, the merged flags, and the chosen compiler.
pub fn entry_for_file(file_path: &str, includes: &Vec<String>, flags: &str, exe: &str) -> (r:
    Result<CLangEntry, GenError>)
    ensures
        r is Ok <==> spec_split_path(file_path@) is Some,
        r matches Ok(e) ==> entry_matches(e, file_path@, includes.deep_view(), flags@, exe@),
        r matches Err(e) ==> ({
            let k = last_index_of(file_path@, '/');
            &&& k == -1 ==> (e matches GenError::NoParent { file } && file@ == file_path@)
            &&& k != -1 ==> (e matches GenError::NoFileName { file } && file@ == file_path@)
        }),
{
    let (dir, name) = match split_file_path(file_path) {
        Ok(p) => p,
        Err(e) => {
            return Err(e);
        },
    };
    let obj = object_name(name.as_str());
    let options = options_text(includes, flags);
    let command = command_text(exe, options.as_str(), obj.as_str(), name.as_str());
    Ok(CLangEntry { directory: dir, file: name, command: Some(command) })
}

} // verus!
