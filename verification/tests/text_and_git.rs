use acta::git::{command_error, git, GitOutput};
use acta::text::{contains, join_strings, strip_prefix, trimmed};

fn strings(items: &[&str]) -> Vec<String> {
    items.iter().map(|s| s.to_string()).collect()
}

#[test]
fn trim_removes_unicode_whitespace_at_both_ends() {
    assert_eq!(trimmed("  /repo\n"), "/repo");
    assert_eq!(trimmed("\t\u{a0}a b\u{3000}\r\n"), "a b");
    assert_eq!(trimmed(" \n "), "");
    assert_eq!(trimmed("x"), "x");
    for s in ["", " a ", "\u{85}b\u{2028}", "c\u{200a}d"] {
        assert_eq!(trimmed(s), s.trim());
    }
}

#[test]
fn join_puts_separator_between_items() {
    assert_eq!(join_strings(&strings(&[]), " "), "");
    assert_eq!(join_strings(&strings(&["a"]), " "), "a");
    assert_eq!(join_strings(&strings(&["a", "b", "c"]), "; "), "a; b; c");
}

#[test]
fn strip_prefix_matches_std() {
    assert_eq!(strip_prefix("worktree /repo", "worktree "), Some("/repo".to_string()));
    assert_eq!(strip_prefix("branch x", "worktree "), None);
    assert_eq!(strip_prefix("work", "worktree "), None);
    assert_eq!(strip_prefix("abc", ""), Some("abc".to_string()));
}

#[test]
fn contains_finds_substrings() {
    assert!(contains("x\n# begin acta\n", "# begin acta"));
    assert!(!contains("# begin act", "# begin acta"));
    assert!(contains("abc", ""));
    assert!(!contains("", "a"));
    assert!(contains("aab", "ab"));
}

#[test]
fn git_output_is_decoded_and_trimmed() {
    let out = GitOutput { success: true, stdout: b"  /home/me/repo\n".to_vec(), stderr: Vec::new() };
    assert_eq!(git("rev-parse", &strings(&["--show-toplevel"]), &out), Ok("/home/me/repo".to_string()));
    let lossy = GitOutput { success: true, stdout: vec![b'a', 0xff, b'b', b'\n'], stderr: Vec::new() };
    assert_eq!(git("rev-parse", &strings(&[]), &lossy), Ok("a\u{fffd}b".to_string()));
}

#[test]
fn git_failure_reports_command_and_stderr() {
    let out = GitOutput { success: false, stdout: Vec::new(), stderr: b"fatal: not a git repository\n".to_vec() };
    assert_eq!(
        git("rev-parse", &strings(&["--show-toplevel"]), &out),
        Err("`git rev-parse --show-toplevel` failed: fatal: not a git repository".to_string())
    );
    let quiet = GitOutput { success: false, stdout: Vec::new(), stderr: b" \n".to_vec() };
    assert_eq!(
        command_error("flow", &strings(&["feat", "start", "x"]), &quiet),
        "`git flow feat start x` failed".to_string()
    );
}
