use clangd_gen::discover::{compile_masks, default_mask, find_directories, scan_files, Candidate, DirTree};
use clangd_gen::pattern::GlobPattern;

fn leaf(path: &str, files: &[&str]) -> DirTree {
    DirTree {
        path: path.to_string(),
        files: files.iter().map(|f| f.to_string()).collect(),
        subdirs: Vec::new(),
    }
}

#[test]
fn default_mask_selects_c_family_files() {
    let masks = compile_masks(&default_mask());
    assert_eq!(masks.len(), 6);
    let names: Vec<String> = vec![
        "main.c".to_string(),
        "main.h".to_string(),
        "prog.cpp".to_string(),
        "README".to_string(),
        "x.cc".to_string(),
        "y.c++".to_string(),
        "z.C".to_string(),
        "w.cxx".to_string(),
    ];
    let mut files: Vec<String> = Vec::new();
    scan_files("/src", &names, &masks, &mut files);
    assert_eq!(
        files,
        vec![
            "/src/main.c".to_string(),
            "/src/prog.cpp".to_string(),
            "/src/x.cc".to_string(),
            "/src/y.c++".to_string(),
            "/src/z.C".to_string(),
            "/src/w.cxx".to_string(),
        ]
    );
}

#[test]
fn invalid_mask_entries_are_dropped() {
    let masks = compile_masks(&vec![
        "[".to_string(),
        "a".repeat(2000),
        "*.rs".to_string(),
    ]);
    assert_eq!(masks.len(), 1);
    let names: Vec<String> = vec!["a.rs".to_string(), "a.c".to_string()];
    let mut files: Vec<String> = Vec::new();
    scan_files("/d", &names, &masks, &mut files);
    assert_eq!(files, vec!["/d/a.rs".to_string()]);
}

#[test]
fn matched_directory_is_pruned() {
    let tree = DirTree {
        path: "/r".to_string(),
        files: Vec::new(),
        subdirs: vec![DirTree {
            path: "/r/a".to_string(),
            files: Vec::new(),
            subdirs: vec![DirTree {
                path: "/r/a/b".to_string(),
                files: Vec::new(),
                subdirs: vec![DirTree {
                    path: "/r/a/b/match".to_string(),
                    files: vec!["f.c".to_string()],
                    subdirs: vec![leaf("/r/a/b/match/c", &["g.c"])],
                }],
            }],
        }],
    };
    let pattern = GlobPattern::compile("/r/a/b/match").unwrap();
    let mut candidates: Vec<Candidate> = Vec::new();
    find_directories(&tree, &pattern, &mut candidates);
    assert_eq!(candidates.len(), 1);
    assert_eq!(candidates[0].path, "/r/a/b/match".to_string());
    assert_eq!(candidates[0].files, vec!["f.c".to_string()]);
}

#[test]
fn discovery_is_deterministic() {
    let tree = DirTree {
        path: "/r".to_string(),
        files: Vec::new(),
        subdirs: vec![
            leaf("/r/src", &["a.c"]),
            DirTree {
                path: "/r/lib".to_string(),
                files: Vec::new(),
                subdirs: vec![leaf("/r/lib/src", &["b.c"])],
            },
        ],
    };
    let pattern = GlobPattern::compile("**/src").unwrap();
    let mut first: Vec<Candidate> = Vec::new();
    find_directories(&tree, &pattern, &mut first);
    let mut second: Vec<Candidate> = Vec::new();
    find_directories(&tree, &pattern, &mut second);
    assert_eq!(first.len(), second.len());
    for i in 0..first.len() {
        assert_eq!(first[i].path, second[i].path);
        assert_eq!(first[i].files, second[i].files);
    }
}

#[test]
fn unmatched_directories_are_descended_in_order() {
    let tree = DirTree {
        path: "/r".to_string(),
        files: Vec::new(),
        subdirs: vec![
            leaf("/r/one", &[]),
            DirTree {
                path: "/r/two".to_string(),
                files: Vec::new(),
                subdirs: vec![leaf("/r/two/one", &[])],
            },
        ],
    };
    let pattern = GlobPattern::compile("**/one").unwrap();
    let mut candidates: Vec<Candidate> = Vec::new();
    find_directories(&tree, &pattern, &mut candidates);
    let paths: Vec<String> = candidates.iter().map(|c| c.path.clone()).collect();
    assert_eq!(paths, vec!["/r/one".to_string(), "/r/two/one".to_string()]);
}

#[test]
fn candidates_are_scanned_in_order() {
    let cands = vec![
        Candidate { path: "/r/a".to_string(), files: vec!["x.c".to_string(), "x.h".to_string()] },
        Candidate { path: "/r/b".to_string(), files: vec!["y.c".to_string()] },
    ];
    let masks = compile_masks(&default_mask());
    let mut files: Vec<String> = Vec::new();
    clangd_gen::discover::scan_candidates(&cands, &masks, &mut files);
    assert_eq!(files, vec!["/r/a/x.c".to_string(), "/r/b/y.c".to_string()]);
}

#[test]
fn static_discovery_is_non_recursive_in_matched_directories() {
    let tree = DirTree {
        path: "/r".to_string(),
        files: Vec::new(),
        subdirs: vec![DirTree {
            path: "/r/src".to_string(),
            files: vec!["a.c".to_string(), "notes.txt".to_string()],
            subdirs: vec![leaf("/r/src/deep", &["hidden.c"])],
        }],
    };
    let pattern = GlobPattern::compile("/r/src").unwrap();
    let masks = compile_masks(&default_mask());
    let files = clangd_gen::discover::discover_branch_files(&tree, &pattern, &masks);
    assert_eq!(files, vec!["/r/src/a.c".to_string()]);
}

#[test]
fn glob_matching_follows_globset() {
    let pattern = GlobPattern::compile("*.c").unwrap();
    assert!(pattern.is_match("x.c"));
    assert!(!pattern.is_match("x.cc"));
    assert!(GlobPattern::compile("[").is_err());
}
