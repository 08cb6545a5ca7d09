//! Choosing a compiler for a source file. The candidate names depend only
//! on the file's extension; each candidate is probed, in priority order,
//! in every directory of the executable search path, and the first
//! existing probe wins. Existence is the filesystem's to answer: the
//! driver reports one bit per probe.
use vstd::prelude::*;
use vstd::string::*;

use crate::model::GenError;
use crate::text::{last_index_of, spec_path_join};

verus! {

/// The final name component of a path: everything after the last
/// separator, the whole text when there is none.
pub open spec fn spec_file_name(p: Seq<char>) -> Seq<char> {
    p.subrange(last_index_of(p, '/') + 1, p.len() as int)
}

/// The extension of a file name: what follows the last dot, provided the
/// dot is not the leading character (a name that only starts with a dot
/// is a hidden file without extension).
pub open spec fn spec_extension(name: Seq<char>) -> Option<Seq<char>> {
    let d = last_index_of(name, '.');
    if d <= 0 {
        None
    } else {
        Some(name.subrange(d + 1, name.len() as int))
    }
}

/// Whether the path names a C source file: extension exactly `c`.
/// Everything else is treated as C++.
pub open spec fn spec_is_c(p: Seq<char>) -> bool {
    spec_extension(spec_file_name(p)) == Some(seq!['c'])
}

fn file_name_part(p: &str) -> (r: String)
    ensures
        r@ == spec_file_name(p@),
{
    let n = p.unicode_len();
    proof {
        crate::text::lemma_last_index_of(p@, '/');
    }
    match crate::text::find_last(p, '/') {
        Some(k) => String::from_str(p.substring_char(k + 1, n)),
        None => {
            proof {
                assert(p@.subrange(0, n as int) =~= p@);
            }
            String::from_str(p)
        },
    }
}

fn is_c_file(p: &str) -> (r: bool)
    ensures
        r == spec_is_c(p@),
{
    let name = file_name_part(p);
    let nn = name.as_str().unicode_len();
    proof {
        crate::text::lemma_last_index_of(name@, '.');
    }
    match crate::text::find_last(name.as_str(), '.') {
        Some(d) => {
            if d == 0 {
                proof {
                    assert(spec_extension(name@) is None);
                }
                false
            } else {
                let r = nn - d == 2 && name.as_str().get_char(d + 1) == 'c';
                proof {
                    let ext = name@.subrange(d + 1, nn as int);
                    assert(spec_extension(name@) == Some(ext));
                    if r {
                        assert(ext =~= seq!['c']);
                    } else {
                        assert(ext != seq!['c']) by {
                            if ext.len() == 1 {
                                assert(ext[0] == name@[d + 1]);
                            }
                        }
                    }
                }
                r
            }
        },
        None => {
            proof {
                crate::text::lemma_last_index_of(name@, '.');
                assert(spec_extension(name@) is None);
            }
            false
        },
    }
}

/// The compiler names tried for the file, in priority order: the C list
/// for a `.c` file, the C++ list for anything else.
pub open spec fn spec_candidates(p: Seq<char>) -> Seq<Seq<char>> {
    if spec_is_c(p) {
        seq!["clang"@, "gcc"@, "cc"@]
    } else {
        seq!["clang++"@, "g++"@, "c++"@]
    }
}

pub fn compiler_candidates(file_path: &str) -> (r: Vec<String>)
    ensures
        r.deep_view() == spec_candidates(file_path@),
{
    let mut out: Vec<String> = Vec::new();
    if is_c_file(file_path) {
        out.push(String::from_str("clang"));
        out.push(String::from_str("gcc"));
        out.push(String::from_str("cc"));
        proof {
            assert(out.deep_view() =~= spec_candidates(file_path@));
        }
    } else {
        out.push(String::from_str("clang++"));
        out.push(String::from_str("g++"));
        out.push(String::from_str("c++"));
        proof {
            assert(out.deep_view() =~= spec_candidates(file_path@));
        }
    }
    out
}

/// Every probe for the file, in the order tried: for each candidate name,
/// in priority order, that name joined onto each search-path directory.
pub open spec fn spec_probes(cands: Seq<Seq<char>>, dirs: Seq<Seq<char>>, i: int) -> Seq<Seq<char>>
    decreases cands.len() - i,
{
    if i < 0 || i >= cands.len() {
        Seq::empty()
    } else {
        dirs.map_values(|d: Seq<char>| spec_path_join(d, cands[i])) + spec_probes(cands, dirs, i + 1)
    }
}

/// Lays out the full probe order for the file over the search-path
/// directories.
pub fn compiler_probes(file_path: &str, path_dirs: &Vec<String>) -> (r: Vec<String>)
    ensures
        r.deep_view() == spec_probes(spec_candidates(file_path@), path_dirs.deep_view(), 0),
{
    let cands = compiler_candidates(file_path);
    let ghost cv = cands.deep_view();
    let ghost dv = path_dirs.deep_view();
    let nc = cands.len();
    let nd = path_dirs.len();
    let mut out: Vec<String> = Vec::new();
    let mut i: usize = 0;
    proof {
        assert(out.deep_view() =~= Seq::<Seq<char>>::empty());
    }
    while i < nc
        invariant
            i <= nc,
            nc == cands@.len(),
            nd == path_dirs@.len(),
            cv == cands.deep_view(),
            dv == path_dirs.deep_view(),
            spec_probes(cv, dv, 0) == out.deep_view() + spec_probes(cv, dv, i as int),
        decreases nc - i,
    {
        let ghost row = dv.map_values(|d: Seq<char>| spec_path_join(d, cv[i as int]));
        let ghost start = out.deep_view();
        let mut j: usize = 0;
        while j < nd
            invariant
                j <= nd,
                i < nc,
                nc == cands@.len(),
                nd == path_dirs@.len(),
                cv == cands.deep_view(),
                dv == path_dirs.deep_view(),
                row == dv.map_values(|d: Seq<char>| spec_path_join(d, cv[i as int])),
                out.deep_view() =~= start + row.take(j as int),
            decreases nd - j,
        {
            let ghost prev = out.deep_view();
            out.push(crate::text::path_join(path_dirs[j].as_str(), cands[i].as_str()));
            proof {
                assert(out.deep_view() =~= prev.push(row[j as int]));
                assert(row.take(j + 1) =~= row.take(j as int).push(row[j as int]));
            }
            j = j + 1;
        }
        proof {
            assert(row.take(nd as int) =~= row);
            assert(start + row + spec_probes(cv, dv, i + 1) =~= start + (row + spec_probes(
                cv,
                dv,
                i + 1,
            )));
        }
        i = i + 1;
    }
    out
}

/// Admits the search-path directories, or fails the run: an absent
/// search-path environment variable is fatal.
pub fn search_path_dirs(dirs: Option<Vec<String>>) -> (r: Result<Vec<String>, GenError>)
    ensures
        r is Ok <==> dirs is Some,
        r matches Ok(v) ==> (dirs matches Some(d) && v@ == d@),
        r matches Err(e) ==> e is SearchPathMissing,
{
    match dirs {
        Some(v) => Ok(v),
        None => Err(GenError::SearchPathMissing),
    }
}

/// The least probe index that exists, or -1.
pub open spec fn first_existing(exists: Seq<bool>, i: int) -> int
    decreases exists.len() - i,
{
    if i < 0 || i >= exists.len() {
        -1
    } else if exists[i] {
        i
    } else {
        first_existing(exists, i + 1)
    }
}

/// Picks the first probe the filesystem reported as existing; with none,
/// the run fails naming the file a compiler was sought for.
pub fn choose_existing(probes: &Vec<String>, exists: &Vec<bool>, file_path: &str) -> (r: Result<
    String,
    GenError,
>)
    requires
        probes@.len() == exists@.len(),
    ensures
        r is Ok <==> first_existing(exists@, 0) != -1,
        r matches Ok(p) ==> p@ == probes.deep_view()[first_existing(exists@, 0)],
        r matches Err(e) ==> e matches GenError::CompilerNotFound { file } && file@ == file_path@,
{
    let n = probes.len();
    let mut i: usize = 0;
    while i < n
        invariant
            i <= n,
            n == probes@.len(),
            probes@.len() == exists@.len(),
            first_existing(exists@, 0) == first_existing(exists@, i as int),
        decreases n - i,
    {
        if exists[i] {
            return Ok(probes[i].clone());
        }
        i = i + 1;
    }
    Err(GenError::CompilerNotFound { file: String::from_str(file_path) })
}

} // verus!
