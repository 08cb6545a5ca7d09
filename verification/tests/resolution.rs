use clangd_gen::compiler::{choose_existing, compiler_candidates, compiler_probes};
use clangd_gen::entry::{entry_for_file, object_name, options_text};
use clangd_gen::includes::{finish_includes, plan_includes, IncludePlan};
use clangd_gen::model::GenError;

#[test]
fn absolute_include_is_kept_unchanged() {
    let paths = vec!["/abs/inc".to_string()];
    let a = plan_includes(&paths, "/src/one", "/cwd");
    let b = plan_includes(&paths, "/src/two", "/cwd");
    match (&a[0], &b[0]) {
        (IncludePlan::Ready { path: p1 }, IncludePlan::Ready { path: p2 }) => {
            assert_eq!(p1, "/abs/inc");
            assert_eq!(p2, "/abs/inc");
        }
        _ => panic!("absolute include was not kept"),
    }
}

#[test]
fn dot_relative_include_is_anchored_to_file_dir() {
    let paths = vec!["./inc".to_string(), "../inc".to_string()];
    let a = plan_includes(&paths, "/src/one", "/cwd");
    let b = plan_includes(&paths, "/src/two", "/cwd");
    for plans in [&a, &b] {
        assert_eq!(plans.len(), 2);
    }
    match (&a[0], &b[0]) {
        (
            IncludePlan::Canon { anchor: a1, joined: j1, .. },
            IncludePlan::Canon { anchor: a2, joined: j2, .. },
        ) => {
            assert_eq!(a1, "/src/one");
            assert_eq!(a2, "/src/two");
            assert_eq!(j1, "/src/one/./inc");
            assert_eq!(j2, "/src/two/./inc");
            assert_ne!(j1, j2);
        }
        _ => panic!("dot-relative include was not anchored"),
    }
    match &a[1] {
        IncludePlan::Canon { anchor, joined, .. } => {
            assert_eq!(anchor, "/src/one");
            assert_eq!(joined, "/src/one/../inc");
        }
        _ => panic!("parent-relative include was not anchored"),
    }
}

#[test]
fn bare_relative_include_is_anchored_to_cwd() {
    let paths = vec!["inc/sub".to_string()];
    let plans = plan_includes(&paths, "/src/one", "/cwd");
    match &plans[0] {
        IncludePlan::Canon { anchor, joined, .. } => {
            assert_eq!(anchor, "/cwd");
            assert_eq!(joined, "/cwd/inc/sub");
        }
        _ => panic!("bare relative include was not anchored to cwd"),
    }
}

#[test]
fn finish_includes_takes_answers_in_order() {
    let paths = vec!["/abs".to_string(), "./x".to_string()];
    let plans = plan_includes(&paths, "/src", "/cwd");
    let answers = vec![None, Some("/src/x".to_string())];
    let resolved = finish_includes(&plans, &answers).unwrap();
    assert_eq!(resolved, vec!["/abs".to_string(), "/src/x".to_string()]);
}

#[test]
fn unresolvable_include_is_fatal_with_path_and_base() {
    let paths = vec!["./missing".to_string()];
    let plans = plan_includes(&paths, "/src", "/cwd");
    let answers = vec![None];
    match finish_includes(&plans, &answers) {
        Err(GenError::PathResolution { path, base }) => {
            assert_eq!(path, "./missing");
            assert_eq!(base, "/src");
        }
        _ => panic!("missing canonicalization was not fatal"),
    }
}

#[test]
fn c_files_get_c_compilers_and_others_cpp() {
    let c = compiler_candidates("/src/a.c");
    assert_eq!(c, vec!["clang".to_string(), "gcc".to_string(), "cc".to_string()]);
    let cpp = compiler_candidates("/src/a.cpp");
    assert_eq!(cpp, vec!["clang++".to_string(), "g++".to_string(), "c++".to_string()]);
    let none = compiler_candidates("/src/Makefile");
    assert_eq!(none[0], "clang++".to_string());
    let hidden = compiler_candidates("/src/.c");
    assert_eq!(hidden[0], "clang++".to_string());
}

#[test]
fn first_existing_probe_wins() {
    let dirs = vec!["/usr/bin".to_string(), "/bin".to_string()];
    let probes = compiler_probes("/src/a.cpp", &dirs);
    assert_eq!(
        probes,
        vec![
            "/usr/bin/clang++".to_string(),
            "/bin/clang++".to_string(),
            "/usr/bin/g++".to_string(),
            "/bin/g++".to_string(),
            "/usr/bin/c++".to_string(),
            "/bin/c++".to_string(),
        ]
    );
    let exists = vec![false, false, true, false, false, true];
    let exe = choose_existing(&probes, &exists, "/src/a.cpp").unwrap();
    assert_eq!(exe, "/usr/bin/g++");
}

#[test]
fn no_compiler_found_names_the_file() {
    let dirs = vec!["/usr/bin".to_string()];
    let probes = compiler_probes("/src/a.cpp", &dirs);
    let exists = vec![false, false, false];
    match choose_existing(&probes, &exists, "/src/a.cpp") {
        Err(GenError::CompilerNotFound { file }) => assert_eq!(file, "/src/a.cpp"),
        _ => panic!("missing compiler was not fatal"),
    }
}

#[test]
fn object_name_replaces_extension() {
    assert_eq!(object_name("a.cpp"), "a.o");
    assert_eq!(object_name("a.b.c"), "a.b.o");
    assert_eq!(object_name("noext"), "noext.o");
    assert_eq!(object_name(".hidden"), ".hidden.o");
    assert_eq!(object_name("a."), "a.o");
}

#[test]
fn options_join_includes_then_flags() {
    let paths = vec!["/i1".to_string(), "/i2".to_string()];
    assert_eq!(options_text(&paths, "-O2"), "-I/i1 -I/i2 -O2");
    assert_eq!(options_text(&paths, ""), "-I/i1 -I/i2");
    let empty: Vec<String> = Vec::new();
    assert_eq!(options_text(&empty, "-O2"), "-O2");
    assert_eq!(options_text(&empty, ""), "");
}

#[test]
fn entry_synthesizes_the_full_command() {
    let includes = vec!["/i1".to_string(), "/i2".to_string()];
    let e = entry_for_file("/src/main.cpp", &includes, "-O2", "/usr/bin/g++").unwrap();
    assert_eq!(e.directory, "/src");
    assert_eq!(e.file, "main.cpp");
    assert_eq!(
        e.command,
        Some("/usr/bin/g++ -I/i1 -I/i2 -O2 -c -o main.o main.cpp".to_string())
    );
}

#[test]
fn entry_with_no_options_keeps_plain_joining() {
    let includes: Vec<String> = Vec::new();
    let e = entry_for_file("/a/x.c", &includes, "", "/bin/cc").unwrap();
    assert_eq!(e.directory, "/a");
    assert_eq!(e.command, Some("/bin/cc  -c -o x.o x.c".to_string()));
}

#[test]
fn entry_command_begins_with_the_chosen_compiler() {
    let dirs = vec!["/opt/t".to_string()];
    let probes = compiler_probes("/src/a.cpp", &dirs);
    let exists = vec![false, true, false];
    let exe = choose_existing(&probes, &exists, "/src/a.cpp").unwrap();
    assert_eq!(exe, "/opt/t/g++");
    let includes: Vec<String> = Vec::new();
    let e = entry_for_file("/src/a.cpp", &includes, "", &exe).unwrap();
    assert!(e.command.unwrap().starts_with("/opt/t/g++ "));
}

#[test]
fn branch_rows_are_appended_in_order() {
    let includes: Vec<String> = Vec::new();
    let mut db = vec![entry_for_file("/a/x.c", &includes, "", "cc").unwrap()];
    let rows = vec![
        entry_for_file("/b/y.c", &includes, "", "cc").unwrap(),
        entry_for_file("/b/z.c", &includes, "", "cc").unwrap(),
    ];
    clangd_gen::entry::append_entries(&mut db, rows);
    let files: Vec<String> = db.iter().map(|e| e.file.clone()).collect();
    assert_eq!(
        files,
        vec!["x.c".to_string(), "y.c".to_string(), "z.c".to_string()]
    );
}

#[test]
fn file_without_separator_has_no_parent() {
    let includes: Vec<String> = Vec::new();
    match entry_for_file("plain", &includes, "", "cc") {
        Err(GenError::NoParent { file }) => assert_eq!(file, "plain"),
        _ => panic!("parentless path was not fatal"),
    }
}
