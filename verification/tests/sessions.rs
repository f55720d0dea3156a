use acta::cli::{run, Cli, CommandKind, Session};
use acta::flow::{Reply, Request, Template};
use acta::git::GitOutput;

fn git_ok(stdout: &str) -> Reply {
    Reply::Git(GitOutput { success: true, stdout: stdout.as_bytes().to_vec(), stderr: Vec::new() })
}

fn git_err(stderr: &str) -> Reply {
    Reply::Git(GitOutput { success: false, stdout: Vec::new(), stderr: stderr.as_bytes().to_vec() })
}

fn describe(q: &Request) -> String {
    match q {
        Request::Git { command, args } => format!("git {} {}", command, args.join(" ")),
        Request::Home => "home".to_string(),
        Request::IsFile { path } => format!("is-file {path}"),
        Request::IsDir { path } => format!("is-dir {path}"),
        Request::Exists { path } => format!("exists {path}"),
        Request::CreateDirAll { path } => format!("mkdir {path}"),
        Request::ReadToString { path } => format!("read {path}"),
        Request::OpenAppend { path } => format!("open {path}"),
        Request::WriteOpen { text } => format!("write {text:?}"),
        Request::WriteNew { path, template } => format!("new {path} {template:?}"),
        Request::ReadDirNames { path } => format!("ls {path}"),
        Request::Conventions => "conventions".to_string(),
        Request::Choose { prompt, items } => format!("choose {prompt}: {}", items.join(", ")),
        Request::Spawn { program, args } => format!("spawn {} {}", program, args.join(" ")),
        Request::FeedInput { text } => format!("feed {text}"),
        Request::WaitChild => "wait".to_string(),
        Request::Print { line } => format!("print {line}"),
        Request::Finish { result } => format!("finish {result:?}"),
    }
}

/// Runs a command with scripted replies and returns the requests it made.
fn script(cli: Cli, replies: Vec<Reply>) -> Vec<String> {
    let (mut session, mut q): (Session, Request) = run(cli);
    let mut seen = vec![describe(&q)];
    for reply in replies {
        assert!(session.accepts(&reply), "reply not accepted after {}", seen.last().unwrap());
        q = session.resume(reply);
        seen.push(describe(&q));
    }
    seen
}

fn start(branch: &str) -> Cli {
    Cli { command: CommandKind::Start { branch: branch.to_string() } }
}

#[test]
fn start_runs_every_step_in_order() {
    let seen = script(
        start("feat/demo"),
        vec![
            git_ok("/repo\n"),
            git_ok("develop\n"),
            git_err(""),
            Reply::Flag(false),
            git_ok(""),
            git_ok(""),
            git_ok(""),
            git_ok(".git\n"),
            Reply::Done,
            Reply::Text("*.o".to_string()),
            Reply::Done,
            Reply::Done,
            Reply::Done,
            Reply::Done,
            Reply::Done,
            Reply::Done,
            Reply::Done,
            Reply::Done,
            Reply::Done,
            Reply::Done,
        ],
    );
    assert_eq!(
        seen,
        vec![
            "git rev-parse --show-toplevel",
            "git rev-parse --abbrev-ref HEAD",
            "git show-ref --verify refs/heads/feat/demo",
            "exists /repo/.worktrees/feat/demo",
            "git flow feat start demo",
            "git checkout develop",
            "git worktree add /repo/.worktrees/feat/demo feat/demo",
            "git rev-parse --git-common-dir",
            "mkdir /repo/.git/info",
            "read /repo/.git/info/exclude",
            "open /repo/.git/info/exclude",
            "write \"\\n\"",
            "write \"# begin acta\\n/.worktrees/\\n# end acta\\n\"",
            "mkdir /repo/.worktrees/feat/demo/docs/agents/plans/feat/demo",
            "new /repo/.worktrees/feat/demo/docs/agents/plans/feat/demo/01-idea.md Idea",
            "new /repo/.worktrees/feat/demo/docs/agents/plans/feat/demo/02-plan.md Plan",
            "new /repo/.worktrees/feat/demo/docs/agents/plans/feat/demo/03-tasks.md Tasks",
            "print branch: feat/demo",
            "print worktree: /repo/.worktrees/feat/demo",
            "print plans: /repo/.worktrees/feat/demo/docs/agents/plans/feat/demo",
            "finish Ok(())",
        ]
    );
}

#[test]
fn start_refuses_bad_branches_before_running_git() {
    assert_eq!(
        script(start("mytask"), vec![]),
        vec!["finish Err(\"invalid branch `mytask`; use `<type>/<name>`\")"]
    );
}

#[test]
fn start_refuses_a_detached_head() {
    let seen = script(start("feat/x"), vec![git_ok("/repo"), git_ok("HEAD\n")]);
    assert_eq!(seen.last().unwrap(), "finish Err(\"cannot start a plan from a detached HEAD\")");
}

#[test]
fn start_refuses_an_existing_branch_or_worktree() {
    let seen = script(start("feat/x"), vec![git_ok("/repo"), git_ok("main"), git_ok("abc refs/heads/feat/x")]);
    assert_eq!(seen.last().unwrap(), "finish Err(\"branch `feat/x` already exists\")");
    let seen = script(start("feat/x"), vec![git_ok("/repo"), git_ok("main"), git_err(""), Reply::Flag(true)]);
    assert_eq!(seen.last().unwrap(), "finish Err(\"worktree path `/repo/.worktrees/feat/x` already exists\")");
}

#[test]
fn start_reports_a_failed_restore() {
    let seen = script(
        start("feat/x"),
        vec![git_ok("/repo"), git_ok("main"), git_err(""), Reply::Flag(false), git_ok(""), git_err("error: dirty\n")],
    );
    assert_eq!(
        seen.last().unwrap(),
        "finish Err(\"created `feat/x`, but could not restore `main`: `git checkout main` failed: error: dirty\")"
    );
}

#[test]
fn start_reports_git_that_cannot_run() {
    let seen = script(start("feat/x"), vec![Reply::Failed("No such file or directory".to_string())]);
    assert_eq!(seen.last().unwrap(), "finish Err(\"run `git rev-parse`: No such file or directory\")");
}

fn names(items: &[&str]) -> Vec<String> {
    items.iter().map(|s| s.to_string()).collect()
}

#[test]
fn init_copies_missing_conventions_and_keeps_existing_ones() {
    let seen = script(
        Cli { command: CommandKind::Init },
        vec![
            Reply::Text("/home/me".to_string()),
            Reply::Flag(true),
            git_ok("/repo\n"),
            Reply::Done,
            Reply::Done,
            Reply::Names(names(&["planning.md", "branches.md"])),
            Reply::Flag(false),
            Reply::Done,
            Reply::Flag(true),
            Reply::Done,
            git_ok("/repo/.git\n"),
            Reply::Done,
            Reply::Text(String::new()),
            Reply::Done,
            Reply::Done,
            Reply::Done,
        ],
    );
    assert_eq!(
        seen,
        vec![
            "home",
            "is-file /home/me/.agents/skills/acta/SKILL.md",
            "git rev-parse --show-toplevel",
            "mkdir /repo/docs/agents/plans",
            "mkdir /repo/docs/agents/conventions",
            "conventions",
            "exists /repo/docs/agents/conventions/planning.md",
            "new /repo/docs/agents/conventions/planning.md Convention(0)",
            "exists /repo/docs/agents/conventions/branches.md",
            "mkdir /repo/.worktrees",
            "git rev-parse --git-common-dir",
            "mkdir /repo/.git/info",
            "read /repo/.git/info/exclude",
            "open /repo/.git/info/exclude",
            "write \"# begin acta\\n/.worktrees/\\n# end acta\\n\"",
            "print initialized Acta in /repo",
            "finish Ok(())",
        ]
    );
}

#[test]
fn second_init_writes_nothing() {
    let seen = script(
        Cli { command: CommandKind::Init },
        vec![
            Reply::Text("/home/me".to_string()),
            Reply::Flag(true),
            git_ok("/repo\n"),
            Reply::Done,
            Reply::Done,
            Reply::Names(names(&["planning.md", "branches.md"])),
            Reply::Flag(true),
            Reply::Flag(true),
            Reply::Done,
            git_ok("/repo/.git\n"),
            Reply::Done,
            Reply::Text("# begin acta\n/.worktrees/\n# end acta\n".to_string()),
            Reply::Done,
        ],
    );
    assert_eq!(
        seen,
        vec![
            "home",
            "is-file /home/me/.agents/skills/acta/SKILL.md",
            "git rev-parse --show-toplevel",
            "mkdir /repo/docs/agents/plans",
            "mkdir /repo/docs/agents/conventions",
            "conventions",
            "exists /repo/docs/agents/conventions/planning.md",
            "exists /repo/docs/agents/conventions/branches.md",
            "mkdir /repo/.worktrees",
            "git rev-parse --git-common-dir",
            "mkdir /repo/.git/info",
            "read /repo/.git/info/exclude",
            "print initialized Acta in /repo",
            "finish Ok(())",
        ]
    );
    assert!(!seen.iter().any(|q| q.starts_with("new ") || q.starts_with("open ") || q.starts_with("write ")));
}

#[test]
fn init_reports_a_failed_convention_write() {
    let seen = script(
        Cli { command: CommandKind::Init },
        vec![
            Reply::Text("/h".to_string()),
            Reply::Flag(true),
            git_ok("/repo"),
            Reply::Done,
            Reply::Failed("denied".into()),
        ],
    );
    assert_eq!(seen.last().unwrap(), "finish Err(\"create conventions directory: denied\")");
    let seen = script(
        Cli { command: CommandKind::Init },
        vec![
            Reply::Text("/h".to_string()),
            Reply::Flag(true),
            git_ok("/repo"),
            Reply::Done,
            Reply::Done,
            Reply::Names(names(&["planning.md"])),
            Reply::Flag(false),
            Reply::Failed("exists".into()),
        ],
    );
    assert_eq!(
        seen.last().unwrap(),
        "finish Err(\"write `/repo/docs/agents/conventions/planning.md`: exists\")"
    );
}

#[test]
fn init_needs_home_and_the_skill() {
    let seen = script(Cli { command: CommandKind::Init }, vec![Reply::Missing]);
    assert_eq!(seen.last().unwrap(), "finish Err(\"cannot locate the home directory; `HOME` is not set\")");
    let seen = script(Cli { command: CommandKind::Init }, vec![Reply::Text("/h".to_string()), Reply::Flag(false)]);
    assert_eq!(
        seen.last().unwrap(),
        "finish Err(\"Acta skill not found at `/h/.agents/skills/acta/SKILL.md`; install `templates/skills/acta` there before initializing\")"
    );
}

#[test]
fn init_treats_an_unreadable_exclude_file_as_empty() {
    let seen = script(
        Cli { command: CommandKind::Init },
        vec![
            Reply::Text("/h".to_string()),
            Reply::Flag(true),
            git_ok("/repo"),
            Reply::Done,
            Reply::Done,
            Reply::Names(vec![]),
            Reply::Done,
            git_ok(".git"),
            Reply::Done,
            Reply::Failed("not found".to_string()),
            Reply::Done,
        ],
    );
    assert_eq!(seen[10], "open /repo/.git/info/exclude");
    assert_eq!(seen[11], "write \"# begin acta\\n/.worktrees/\\n# end acta\\n\"");
}

fn clarify(name: &str) -> Cli {
    Cli { command: CommandKind::Clarify { name: name.to_string() } }
}

#[test]
fn clarify_writes_the_next_numbered_file() {
    let seen = script(
        clarify("authentication-scope"),
        vec![
            git_ok("feat/demo\n"),
            git_ok("/repo/.worktrees/feat/demo\n"),
            Reply::Flag(true),
            Reply::Names(vec!["01-idea.md".into(), "02-plan.md".into(), "03-tasks.md".into()]),
            Reply::Done,
            Reply::Done,
        ],
    );
    let plans = "/repo/.worktrees/feat/demo/docs/agents/plans/feat/demo";
    assert_eq!(
        seen,
        vec![
            "git rev-parse --abbrev-ref HEAD".to_string(),
            "git rev-parse --show-toplevel".to_string(),
            format!("is-dir {plans}"),
            format!("ls {plans}"),
            format!("new {plans}/04-authentication-scope-clarity.md Clarification"),
            format!("print {plans}/04-authentication-scope-clarity.md"),
            "finish Ok(())".to_string(),
        ]
    );
}

#[test]
fn clarify_refusals() {
    assert_eq!(
        script(clarify("Bad Name"), vec![]),
        vec!["finish Err(\"invalid clarification name `Bad Name`; use lowercase letters, numbers, `-`, `_`, or `.`\")"]
    );
    let seen = script(clarify("x"), vec![git_ok("HEAD")]);
    assert_eq!(seen.last().unwrap(), "finish Err(\"cannot clarify a detached HEAD\")");
    let seen = script(clarify("x"), vec![git_ok("")]);
    assert_eq!(seen.last().unwrap(), "finish Err(\"the current checkout has no branch\")");
    let seen = script(clarify("x"), vec![git_ok("main"), git_ok("/r"), Reply::Flag(false)]);
    assert_eq!(seen.last().unwrap(), "finish Err(\"no Acta plan directory at `/r/docs/agents/plans/main`\")");
    let seen = script(clarify("x"), vec![git_ok("main"), git_ok("/r"), Reply::Flag(true), Reply::Failed("denied".into())]);
    assert_eq!(seen.last().unwrap(), "finish Err(\"read plan directory: denied\")");
    let seen = script(
        clarify("x"),
        vec![git_ok("main"), git_ok("/r"), Reply::Flag(true), Reply::Names(vec![]), Reply::Failed("exists".into())],
    );
    assert_eq!(seen.last().unwrap(), "finish Err(\"write `/r/docs/agents/plans/main/04-x-clarity.md`: exists\")");
}

#[test]
fn agentsmd_writes_the_chosen_template() {
    let seen = script(
        Cli { command: CommandKind::Agentsmd },
        vec![Reply::Flag(false), Reply::Index(1), Reply::Done, Reply::Done],
    );
    assert_eq!(
        seen,
        vec![
            "exists AGENTS.md",
            "choose Choose an AGENTS.md template: genericdev, ponytail, wisedev",
            "new AGENTS.md Ponytail",
            "print created AGENTS.md from ponytail",
            "finish Ok(())",
        ]
    );
    assert!(matches!(Template::Ponytail, Template::Ponytail));
}

#[test]
fn agentsmd_never_overwrites() {
    let seen = script(Cli { command: CommandKind::Agentsmd }, vec![Reply::Flag(true)]);
    assert_eq!(seen.last().unwrap(), "finish Err(\"`AGENTS.md` already exists; refusing to overwrite it\")");
}

#[test]
fn worktrees_copies_with_the_first_working_helper() {
    let listing = "worktree /repo\nbranch refs/heads/main\n\nworktree /repo/.worktrees/feat/demo\nbranch refs/heads/feat/demo\n";
    let seen = script(
        Cli { command: CommandKind::Worktrees },
        vec![
            git_ok(listing),
            Reply::Index(1),
            Reply::Failed("not found".into()),
            Reply::Done,
            Reply::Done,
            Reply::Exited { success: true, status: "exit status: 0".into() },
            Reply::Done,
        ],
    );
    assert_eq!(
        seen,
        vec![
            "git worktree list --porcelain",
            "choose Choose a worktree: /repo  [main], /repo/.worktrees/feat/demo  [feat/demo]",
            "spawn wl-copy ",
            "spawn pbcopy ",
            "feed /repo/.worktrees/feat/demo",
            "wait",
            "print copied /repo/.worktrees/feat/demo",
            "finish Ok(())",
        ]
    );
}

#[test]
fn worktrees_reports_every_helper_failure() {
    let seen = script(
        Cli { command: CommandKind::Worktrees },
        vec![
            git_ok("worktree /repo\n"),
            Reply::Index(0),
            Reply::Done,
            Reply::Missing,
            Reply::Done,
            Reply::Done,
            Reply::Exited { success: false, status: "exit status: 1".into() },
            Reply::Done,
            Reply::Failed("broken pipe".into()),
            Reply::Done,
            Reply::Done,
            Reply::Failed("interrupted".into()),
        ],
    );
    assert_eq!(seen[7], "spawn xclip -selection clipboard");
    assert_eq!(seen[9], "spawn xsel --clipboard --input");
    assert_eq!(
        seen.last().unwrap(),
        "finish Err(\"could not copy path; install `wl-copy`, `pbcopy`, `xclip`, or `xsel`: `wl-copy` did not accept input; `pbcopy` exited with exit status: 1; write to `xclip`: broken pipe; wait for `xsel`: interrupted\")"
    );
}

#[test]
fn worktrees_without_any_helper() {
    let seen = script(
        Cli { command: CommandKind::Worktrees },
        vec![
            git_ok("worktree /repo\n"),
            Reply::Index(0),
            Reply::Failed("a".into()),
            Reply::Failed("b".into()),
            Reply::Failed("c".into()),
            Reply::Failed("d".into()),
        ],
    );
    assert_eq!(
        seen.last().unwrap(),
        "finish Err(\"could not copy path: install `wl-copy`, `pbcopy`, `xclip`, or `xsel`\")"
    );
}

#[test]
fn replies_of_the_wrong_kind_are_not_accepted() {
    let (session, _q) = run(Cli { command: CommandKind::Agentsmd });
    assert!(!session.accepts(&Reply::Done));
    assert!(session.accepts(&Reply::Flag(false)));
    let (session, _q) = run(start("mytask"));
    assert!(!session.accepts(&Reply::Done));
}
