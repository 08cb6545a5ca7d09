use clangd_gen::branchres::{branch_prepare, config_globals, merge_flags, merge_paths, Discovery};
use clangd_gen::model::{Branch, Config, GenError};
use clangd_gen::text::{path_join, split_whitespace_tokens};
use clangd_gen::toolcmd::{tool_command, tool_outcome};

fn plain_branch(pattern: &str) -> Branch {
    Branch {
        branch: pattern.to_string(),
        compile_flags: None,
        include_paths: None,
        mask: None,
        tool: None,
    }
}

#[test]
fn branch_glob_is_prefixed_with_cwd() {
    let branch = plain_branch("[");
    let globals: Vec<String> = Vec::new();
    match branch_prepare(&branch, "", &globals, "/w") {
        Err(GenError::InvalidPattern { pattern, .. }) => assert_eq!(pattern, "/w/["),
        _ => panic!("malformed glob was not fatal"),
    }
}

#[test]
fn rooted_branch_glob_is_kept() {
    let branch = plain_branch("/elsewhere/[");
    let globals: Vec<String> = Vec::new();
    match branch_prepare(&branch, "", &globals, "/w") {
        Err(GenError::InvalidPattern { pattern, .. }) => assert_eq!(pattern, "/elsewhere/["),
        _ => panic!("malformed glob was not fatal"),
    }
}

#[test]
fn oversized_branch_glob_is_rejected_as_invalid() {
    let branch = plain_branch(&"a".repeat(2000));
    let globals: Vec<String> = Vec::new();
    match branch_prepare(&branch, "", &globals, "/w") {
        Err(GenError::InvalidPattern { pattern, .. }) => {
            assert_eq!(pattern.len(), 2000 + "/w/".len());
        }
        _ => panic!("oversized glob was not fatal"),
    }
}

#[test]
fn deeply_nested_branch_glob_is_rejected_as_invalid() {
    let mut deep = "{a,".repeat(300);
    deep.push('b');
    deep.push_str(&"}".repeat(300));
    let branch = plain_branch(&deep);
    let globals: Vec<String> = Vec::new();
    assert!(matches!(
        branch_prepare(&branch, "", &globals, "/w"),
        Err(GenError::InvalidPattern { .. })
    ));
}

#[test]
fn missing_search_path_is_fatal() {
    match clangd_gen::compiler::search_path_dirs(None) {
        Err(GenError::SearchPathMissing) => {}
        _ => panic!("missing search path was not fatal"),
    }
    let dirs = clangd_gen::compiler::search_path_dirs(Some(vec!["/bin".to_string()])).unwrap();
    assert_eq!(dirs, vec!["/bin".to_string()]);
}

#[test]
fn branch_merges_flags_and_paths_after_globals() {
    let branch = Branch {
        branch: "src/*".to_string(),
        compile_flags: Some("-g".to_string()),
        include_paths: Some(vec!["b1".to_string(), "b2".to_string()]),
        mask: None,
        tool: Some("lister".to_string()),
    };
    let globals = vec!["g1".to_string()];
    let plan = branch_prepare(&branch, "-O2", &globals, "/w").unwrap();
    assert_eq!(plan.flags, "-O2 -g");
    assert_eq!(
        plan.paths,
        vec!["g1".to_string(), "b1".to_string(), "b2".to_string()]
    );
    assert!(plan.mask.is_none());
    assert_eq!(plan.tool, Some("lister".to_string()));
}

#[test]
fn mask_takes_precedence_over_tool() {
    let branch = Branch {
        branch: "src/*".to_string(),
        compile_flags: None,
        include_paths: None,
        mask: Some(vec!["*.c".to_string()]),
        tool: Some("lister".to_string()),
    };
    let globals: Vec<String> = Vec::new();
    let plan = branch_prepare(&branch, "", &globals, "/w").unwrap();
    assert!(matches!(plan.discovery(), Discovery::Mask));
}

#[test]
fn discovery_falls_back_to_tool_then_default() {
    let globals: Vec<String> = Vec::new();
    let with_tool = Branch {
        branch: "src/*".to_string(),
        compile_flags: None,
        include_paths: None,
        mask: None,
        tool: Some("lister".to_string()),
    };
    let plan = branch_prepare(&with_tool, "", &globals, "/w").unwrap();
    assert!(matches!(plan.discovery(), Discovery::Tool));
    let bare = plain_branch("src/*");
    let plan = branch_prepare(&bare, "", &globals, "/w").unwrap();
    assert!(matches!(plan.discovery(), Discovery::DefaultMask));
}

#[test]
fn flag_merge_handles_empty_sides() {
    assert_eq!(merge_flags("-O2", &None), "-O2");
    assert_eq!(merge_flags("", &Some("-g".to_string())), "-g");
    assert_eq!(merge_flags("-O2", &Some("-g".to_string())), "-O2 -g");
    assert_eq!(merge_flags("-O2", &Some(String::new())), "-O2 ");
}

#[test]
fn path_merge_keeps_global_order_first() {
    let globals = vec!["a".to_string()];
    let branch = Some(vec!["b".to_string()]);
    assert_eq!(merge_paths(&globals, &branch), vec!["a".to_string(), "b".to_string()]);
    assert_eq!(merge_paths(&globals, &None), vec!["a".to_string()]);
}

#[test]
fn config_defaults_are_empty() {
    let config = Config { compile_flags: None, include_paths: None, branches: Vec::new() };
    let (flags, paths) = config_globals(&config);
    assert_eq!(flags, "");
    assert!(paths.is_empty());
}

#[test]
fn tool_command_splits_on_whitespace() {
    let (cmd, args) = tool_command("gen  --list\tfiles").unwrap();
    assert_eq!(cmd, "gen");
    assert_eq!(args, vec!["--list".to_string(), "files".to_string()]);
    assert!(tool_command("  \t ").is_none());
}

#[test]
fn tool_stdout_tokens_become_candidate_files() {
    let r = tool_outcome("lister", true, 0, "a.c\nsub/b.c /abs/c.c", "", "/work").unwrap();
    assert_eq!(
        r,
        vec![
            "/work/a.c".to_string(),
            "/work/sub/b.c".to_string(),
            "/abs/c.c".to_string(),
        ]
    );
}

#[test]
fn failing_tool_is_fatal_and_keeps_output() {
    match tool_outcome("lister", false, 3, "partial", "boom", "/work") {
        Err(GenError::ToolFailed { tool, code, stdout, stderr }) => {
            assert_eq!(tool, "lister");
            assert_eq!(code, 3);
            assert_eq!(stdout, "partial");
            assert_eq!(stderr, "boom");
        }
        _ => panic!("failing tool was not fatal"),
    }
}

#[test]
fn whitespace_tokenizer_drops_empty_runs() {
    let toks = split_whitespace_tokens("  one \t two\n\nthree ");
    assert_eq!(
        toks,
        vec!["one".to_string(), "two".to_string(), "three".to_string()]
    );
    assert!(split_whitespace_tokens("").is_empty());
}

#[test]
fn path_join_adds_one_separator() {
    assert_eq!(path_join("/a", "b"), "/a/b");
    assert_eq!(path_join("/a/", "b"), "/a/b");
    assert_eq!(path_join("", "b"), "b");
}
