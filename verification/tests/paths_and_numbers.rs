use acta::exclude::{ends_open_line, exclude_file_of, has_block, info_dir_of};
use acta::numbering::{next_clarity_file, next_clarity_prefix};
use acta::paths::{ensure_skill_installed, is_head, join, on_branch, plan_directory, skill_path, worktree_of};

fn strings(items: &[&str]) -> Vec<String> {
    items.iter().map(|s| s.to_string()).collect()
}

#[test]
fn join_follows_pathbuf_join() {
    assert_eq!(join("/repo", "docs"), "/repo/docs");
    assert_eq!(join("/repo/", "docs"), "/repo/docs");
    assert_eq!(join("", "docs"), "docs");
    assert_eq!(join("/repo", "/abs"), "/abs");
    for (a, b) in [("/repo", "x/y"), ("a/", "b"), ("", ""), ("/", "c")] {
        assert_eq!(join(a, b), std::path::Path::new(a).join(b).display().to_string());
    }
}

#[test]
fn worktree_and_plan_paths_mirror_the_branch() {
    assert_eq!(worktree_of("/repo", "refactor/media-storage"), "/repo/.worktrees/refactor/media-storage");
    assert_eq!(
        plan_directory("refactor/media-storage", "/repo"),
        Ok("/repo/docs/agents/plans/refactor/media-storage".to_string())
    );
    assert_eq!(plan_directory("HEAD", "/repo"), Err("the current checkout has no branch".to_string()));
    assert_eq!(plan_directory("", "/repo"), Err("the current checkout has no branch".to_string()));
}

#[test]
fn head_detection() {
    assert!(is_head("HEAD"));
    assert!(!is_head("HEADS"));
    assert!(!is_head("head"));
    assert!(!on_branch(""));
    assert!(!on_branch("HEAD"));
    assert!(on_branch("main"));
}

#[test]
fn skill_must_be_installed() {
    assert_eq!(skill_path("/home/me"), "/home/me/.agents/skills/acta/SKILL.md");
    assert_eq!(ensure_skill_installed("/home/me", true), Ok(()));
    assert_eq!(
        ensure_skill_installed("/home/me", false),
        Err("Acta skill not found at `/home/me/.agents/skills/acta/SKILL.md`; install `templates/skills/acta` there before initializing".to_string())
    );
}

#[test]
fn next_clarification_number() {
    assert_eq!(next_clarity_prefix(&strings(&[])), "04");
    assert_eq!(next_clarity_prefix(&strings(&["01-idea.md", "02-plan.md", "03-tasks.md"])), "04");
    assert_eq!(next_clarity_prefix(&strings(&["01-idea.md", "02-plan.md", "03-tasks.md", "04-a-clarity.md"])), "05");
    assert_eq!(next_clarity_prefix(&strings(&["notes.md", "é1-x", "-7-x.md"])), "04");
    assert_eq!(next_clarity_prefix(&strings(&["01-idea.md"])), "02");
    assert_eq!(next_clarity_prefix(&strings(&["1-x.md"])), "02");
    assert_eq!(next_clarity_prefix(&strings(&["00-x.md"])), "01");
    assert_eq!(next_clarity_prefix(&strings(&["0009-x.md", "8-y"])), "10");
}

#[test]
fn numbers_past_two_digits_keep_increasing() {
    let names = strings(&["01-idea.md", "02-plan.md", "03-tasks.md", "99-a-clarity.md", "100-b-clarity.md"]);
    assert_eq!(next_clarity_file(&names, "c"), "101-c-clarity.md");
    assert_eq!(next_clarity_prefix(&strings(&["999-x", "1000-y", "998-z"])), "1001");
    assert_eq!(
        next_clarity_prefix(&strings(&["99999999999999999999999999-huge.md"])),
        "100000000000000000000000000"
    );
    assert_eq!(next_clarity_prefix(&strings(&["12345678901234567890123-a", "12345678901234567890124-b"])), "12345678901234567890125");
}

#[test]
fn each_clarification_gets_the_number_after_the_last() {
    let mut names = strings(&["01-idea.md", "02-plan.md", "03-tasks.md"]);
    let mut seen = Vec::new();
    for slug in ["a", "b", "c"] {
        let file = next_clarity_file(&names, slug);
        seen.push(file.clone());
        names.push(file);
    }
    assert_eq!(seen, vec!["04-a-clarity.md", "05-b-clarity.md", "06-c-clarity.md"]);
}

#[test]
fn clarification_file_names_are_zero_padded() {
    assert_eq!(next_clarity_file(&strings(&[]), "authentication-scope"), "04-authentication-scope-clarity.md");
    assert_eq!(next_clarity_file(&strings(&["11-x"]), "x"), "12-x-clarity.md");
}

#[test]
fn exclude_file_is_under_the_common_dir() {
    assert_eq!(info_dir_of("/repo", ".git"), "/repo/.git/info");
    assert_eq!(exclude_file_of("/repo/.worktrees/a/b", "/repo/.git"), "/repo/.git/info/exclude");
    assert_eq!(exclude_file_of("/repo", ".git"), "/repo/.git/info/exclude");
}

#[test]
fn exclude_block_detection() {
    assert!(has_block("x\n# begin acta\n/.worktrees/\n# end acta\n"));
    assert!(!has_block(""));
    assert!(ends_open_line("x"));
    assert!(!ends_open_line("x\n"));
    assert!(!ends_open_line(""));
}
