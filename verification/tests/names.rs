use acta::names::{parse_topic_branch, validate_name};

#[test]
fn utils_names_reject_path_traversal_and_shell_punctuation() {
    assert!(validate_name("../outside", "name").is_err());
    assert!(validate_name("change name", "name").is_err());
    assert!(validate_name("safe-change", "name").is_ok());
}

#[test]
fn main_names_reject_path_traversal_and_shell_punctuation() {
    assert!(validate_name("../outside", "name").is_err());
    assert!(validate_name("change name", "name").is_err());
    assert!(validate_name("safe-change", "name").is_ok());
}

#[test]
fn cli_topic_branch_is_split_into_type_and_name() {
    assert_eq!(parse_topic_branch("feat/mytask"), Ok(("feat".to_string(), "mytask".to_string())));
    assert!(parse_topic_branch("mytask").is_err());
    assert!(parse_topic_branch("feat/my/task").is_err());
}

#[test]
fn main_topic_branch_is_split_into_type_and_name() {
    assert_eq!(parse_topic_branch("feat/mytask"), Ok(("feat".to_string(), "mytask".to_string())));
    assert!(parse_topic_branch("mytask").is_err());
    assert!(parse_topic_branch("feat/my/task").is_err());
}

#[test]
fn invalid_name_message_names_label_and_value() {
    assert_eq!(
        validate_name("Bad", "change name"),
        Err("invalid change name `Bad`; use lowercase letters, numbers, `-`, `_`, or `.`".to_string())
    );
}

#[test]
fn names_edge_cases() {
    assert!(validate_name("", "name").is_err());
    assert!(validate_name(".", "name").is_err());
    assert!(validate_name("..", "name").is_err());
    assert!(validate_name("-x", "name").is_err());
    assert!(validate_name("a/b", "name").is_err());
    assert!(validate_name("é", "name").is_err());
    assert!(validate_name("a\tb", "name").is_err());
    assert!(validate_name("...", "name").is_ok());
    assert!(validate_name(".x", "name").is_ok());
    assert!(validate_name("x-", "name").is_ok());
    assert!(validate_name("v1.2_rc-3", "name").is_ok());
}

#[test]
fn topic_branch_errors_name_the_failing_part() {
    assert_eq!(
        parse_topic_branch("mytask"),
        Err("invalid branch `mytask`; use `<type>/<name>`".to_string())
    );
    assert_eq!(
        parse_topic_branch("Feat/x"),
        Err("invalid topic type `Feat`; use lowercase letters, numbers, `-`, `_`, or `.`".to_string())
    );
    assert_eq!(
        parse_topic_branch("feat/my/task"),
        Err("invalid change name `my/task`; use lowercase letters, numbers, `-`, `_`, or `.`".to_string())
    );
    assert_eq!(
        parse_topic_branch("/x"),
        Err("invalid topic type ``; use lowercase letters, numbers, `-`, `_`, or `.`".to_string())
    );
}

#[test]
fn topic_branch_roundtrip_on_values() {
    let (t, n) = parse_topic_branch("refactor/media-storage").unwrap();
    assert_eq!(format!("{t}/{n}"), "refactor/media-storage");
    assert_eq!(t, "refactor");
    assert_eq!(n, "media-storage");
}
