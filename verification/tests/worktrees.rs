use std::error::Error;

use acta::worktrees::{parse_worktrees, worktree_choices, Worktree};

#[test]
fn parses_worktree_paths_and_branches() -> Result<(), Box<dyn Error>> {
    let output = "worktree /repo\nHEAD abc\nbranch refs/heads/main\n\nworktree /repo/.worktrees/feat/demo\nHEAD def\nbranch refs/heads/feat/demo\n\n";

    assert_eq!(
        parse_worktrees(output)?,
        vec![
            Worktree { path: "/repo".into(), branch: "main".into() },
            Worktree { path: "/repo/.worktrees/feat/demo".into(), branch: "feat/demo".into() },
        ]
    );
    Ok(())
}

#[test]
fn labels_detached_worktrees() -> Result<(), Box<dyn Error>> {
    assert_eq!(
        parse_worktrees("worktree /repo\nHEAD abc\n detached\n")?,
        vec![Worktree { path: "/repo".into(), branch: "detached HEAD".into() }]
    );
    Ok(())
}

#[test]
fn empty_listing_is_an_error() {
    assert_eq!(
        parse_worktrees(""),
        Err("no worktrees found in the current repository".to_string())
    );
    assert_eq!(
        parse_worktrees("HEAD abc\nbranch refs/heads/main\n"),
        Err("no worktrees found in the current repository".to_string())
    );
}

#[test]
fn crlf_lines_and_unqualified_branches() {
    assert_eq!(
        parse_worktrees("worktree /a\r\nbranch other\r\n\r\nworktree /b\n").unwrap(),
        vec![
            Worktree { path: "/a".into(), branch: "other".into() },
            Worktree { path: "/b".into(), branch: "detached HEAD".into() },
        ]
    );
}

#[test]
fn every_entry_comes_from_a_worktree_line() {
    let output = "worktree /x\nbranch refs/heads/a\nworktree /y\n\nbranch refs/heads/b\n\n";
    let entries = parse_worktrees(output).unwrap();
    assert_eq!(entries, vec![Worktree { path: "/y".into(), branch: "a".into() }]);
    for e in &entries {
        assert!(output.lines().any(|l| l == format!("worktree {}", e.path)));
    }
}

#[test]
fn menu_labels_show_path_and_branch() {
    let entries = vec![
        Worktree { path: "/repo".into(), branch: "main".into() },
        Worktree { path: "/w".into(), branch: "detached HEAD".into() },
    ];
    assert_eq!(worktree_choices(&entries), vec!["/repo  [main]".to_string(), "/w  [detached HEAD]".to_string()]);
}

#[test]
fn error_exactly_without_worktree_lines() {
    for output in ["", "\n\n", "HEAD abc\n", "branch refs/heads/x\n\n", " worktree /x\n"] {
        assert!(parse_worktrees(output).is_err(), "{output:?}");
    }
    for output in ["worktree /x", "HEAD a\nworktree /y\nbranch b\n", "\n\nworktree /z\n\n\n"] {
        assert!(parse_worktrees(output).is_ok(), "{output:?}");
    }
}

#[test]
fn records_map_to_entries_in_order() {
    let output = "worktree /a\nHEAD 1\nbranch refs/heads/one\n\nworktree /b\nHEAD 2\ndetached\n\nworktree /c\nbranch two\nlocked\n";
    assert_eq!(
        parse_worktrees(output).unwrap(),
        vec![
            Worktree { path: "/a".into(), branch: "one".into() },
            Worktree { path: "/b".into(), branch: "detached HEAD".into() },
            Worktree { path: "/c".into(), branch: "two".into() },
        ]
    );
}
