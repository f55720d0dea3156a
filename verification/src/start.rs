//! `acta start <type>/<name>`: a Git Flow topic branch, its linked worktree
//! and its initial planning files.
use vstd::prelude::*;

use crate::exclude::{
    add_exclude,
    exclude_begin, exclude_idle, exclude_next, exclude_waiting, ExcludeFlow, ExcludeModel,
    ExcludeStage,
};
use crate::flow::{
    fails_with, finish, fits, git_reply, git_request, in_context, read_git, run_error_message,
    succeeds, waiting_for, with_context, write_error, write_error_message, Reply, ReplyModel,
    Request, RequestModel, Template, Waiting,
};
use crate::names::{invalid_name_message, valid_name, validate_name};
use crate::paths::{is_head, join, join_path, plan_dir, plan_dir_of, worktree_dir, worktree_of};
use crate::flow::{concat2, print_request, strings1, strings2, strings3};

verus! {

#[derive(Debug, Clone, Copy, PartialEq, Eq)]
pub enum StartStage {
    AwaitRoot,
    AwaitHead,
    AwaitShowRef,
    AwaitWorktreeCheck,
    AwaitFlow,
    AwaitCheckout,
    AwaitWorktreeAdd,
    Exclude,
    AwaitPlansDir,
    AwaitIdea,
    AwaitPlan,
    AwaitTasks,
    AwaitPrintBranch,
    AwaitPrintWorktree,
    AwaitPrintPlans,
    Over,
}

/// The start of a change: what is known so far, and where it stands.
pub struct StartFlow {
    pub stage: StartStage,
    pub topic: String,
    pub name: String,
    pub root: String,
    pub original: String,
    pub branch: String,
    pub worktree: String,
    pub plans: String,
    pub exclude: ExcludeFlow,
}

pub struct StartModel {
    pub stage: StartStage,
    pub topic: Seq<char>,
    pub name: Seq<char>,
    pub root: Seq<char>,
    pub original: Seq<char>,
    pub branch: Seq<char>,
    pub worktree: Seq<char>,
    pub plans: Seq<char>,
    pub exclude: ExcludeModel,
}

impl View for StartFlow {
    type V = StartModel;

    open spec fn view(&self) -> StartModel {
        StartModel {
            stage: self.stage,
            topic: self.topic@,
            name: self.name@,
            root: self.root@,
            original: self.original@,
            branch: self.branch@,
            worktree: self.worktree@,
            plans: self.plans@,
            exclude: self.exclude@,
        }
    }
}

pub open spec fn toplevel_args() -> Seq<Seq<char>> {
    seq!["--show-toplevel"@]
}

pub open spec fn head_args() -> Seq<Seq<char>> {
    seq!["--abbrev-ref"@, "HEAD"@]
}

/// The topic branch of a change.
pub open spec fn branch_of(topic: Seq<char>, name: Seq<char>) -> Seq<char> {
    topic + "/"@ + name
}

pub open spec fn idea_file(plans: Seq<char>) -> Seq<char> {
    join_path(plans, "01-idea.md"@)
}

pub open spec fn plan_file(plans: Seq<char>) -> Seq<char> {
    join_path(plans, "02-plan.md"@)
}

pub open spec fn tasks_file(plans: Seq<char>) -> Seq<char> {
    join_path(plans, "03-tasks.md"@)
}

pub open spec fn start_waiting(s: StartModel) -> Waiting {
    match s.stage {
        StartStage::AwaitRoot => Waiting::GitRun,
        StartStage::AwaitHead => Waiting::GitRun,
        StartStage::AwaitShowRef => Waiting::GitRun,
        StartStage::AwaitWorktreeCheck => Waiting::Flag,
        StartStage::AwaitFlow => Waiting::GitRun,
        StartStage::AwaitCheckout => Waiting::GitRun,
        StartStage::AwaitWorktreeAdd => Waiting::GitRun,
        StartStage::Exclude => exclude_waiting(s.exclude),
        StartStage::Over => Waiting::Over,
        _ => Waiting::Outcome,
    }
}

/// The start: both names are checked again, then `git` is asked for the
/// top of the checkout.
pub open spec fn start_begin(topic: Seq<char>, name: Seq<char>) -> (StartModel, RequestModel) {
    let s = StartModel {
        stage: StartStage::AwaitRoot,
        topic,
        name,
        root: seq![],
        original: seq![],
        branch: seq![],
        worktree: seq![],
        plans: seq![],
        exclude: exclude_idle(),
    };
    if !valid_name(topic) {
        (StartModel { stage: StartStage::Over, ..s }, fails_with(invalid_name_message("topic type"@, topic)))
    } else if !valid_name(name) {
        (StartModel { stage: StartStage::Over, ..s }, fails_with(invalid_name_message("change name"@, name)))
    } else {
        (s, RequestModel::Git { command: "rev-parse"@, args: toplevel_args() })
    }
}

/// One step of `start`: the state after reply `r`, and the next request.
pub open spec fn start_next(s: StartModel, r: ReplyModel) -> (StartModel, RequestModel) {
    let over = StartModel { stage: StartStage::Over, ..s };
    match s.stage {
        StartStage::AwaitRoot => match git_reply("rev-parse"@, toplevel_args(), r) {
            Err(m) => (over, fails_with(m)),
            Ok(root) => (
                StartModel { stage: StartStage::AwaitHead, root, ..s },
                RequestModel::Git { command: "rev-parse"@, args: head_args() },
            ),
        },
        StartStage::AwaitHead => match git_reply("rev-parse"@, head_args(), r) {
            Err(m) => (over, fails_with(m)),
            Ok(original) => if original == "HEAD"@ {
                (over, fails_with("cannot start a plan from a detached HEAD"@))
            } else {
                let branch = branch_of(s.topic, s.name);
                (
                    StartModel { stage: StartStage::AwaitShowRef, original, branch, ..s },
                    RequestModel::Git {
                        command: "show-ref"@,
                        args: seq!["--verify"@, "refs/heads/"@ + branch],
                    },
                )
            },
        },
        StartStage::AwaitShowRef => match r {
            ReplyModel::Git { success, .. } => if success {
                (over, fails_with("branch `"@ + s.branch + "` already exists"@))
            } else {
                let worktree = worktree_dir(s.root, s.branch);
                (
                    StartModel { stage: StartStage::AwaitWorktreeCheck, worktree, ..s },
                    RequestModel::Exists { path: worktree },
                )
            },
            ReplyModel::Failed(e) => (over, fails_with(run_error_message("show-ref"@, e))),
            _ => (over, fails_with(seq![])),
        },
        StartStage::AwaitWorktreeCheck => if r == ReplyModel::Flag(true) {
            (over, fails_with("worktree path `"@ + s.worktree + "` already exists"@))
        } else {
            (
                StartModel { stage: StartStage::AwaitFlow, ..s },
                RequestModel::Git { command: "flow"@, args: seq![s.topic, "start"@, s.name] },
            )
        },
        StartStage::AwaitFlow => match git_reply("flow"@, seq![s.topic, "start"@, s.name], r) {
            Err(m) => (over, fails_with(m)),
            Ok(_) => (
                StartModel { stage: StartStage::AwaitCheckout, ..s },
                RequestModel::Git { command: "checkout"@, args: seq![s.original] },
            ),
        },
        StartStage::AwaitCheckout => match git_reply("checkout"@, seq![s.original], r) {
            Err(m) => (
                over,
                fails_with(
                    "created `"@ + s.branch + "`, but could not restore `"@ + s.original + "`: "@ + m,
                ),
            ),
            Ok(_) => (
                StartModel { stage: StartStage::AwaitWorktreeAdd, ..s },
                RequestModel::Git { command: "worktree"@, args: seq!["add"@, s.worktree, s.branch] },
            ),
        },
        StartStage::AwaitWorktreeAdd => match git_reply("worktree"@, seq!["add"@, s.worktree, s.branch], r) {
            Err(m) => (over, fails_with(m)),
            Ok(_) => {
                let (e, q) = exclude_begin(s.root);
                (StartModel { stage: StartStage::Exclude, exclude: e, ..s }, q)
            },
        },
        StartStage::Exclude => {
            let (e, q) = exclude_next(s.exclude, r);
            match q {
                RequestModel::Finish { result } => match result {
                    Err(m) => (StartModel { stage: StartStage::Over, exclude: e, ..s }, fails_with(m)),
                    Ok(()) => {
                        let plans = plan_dir(s.worktree, s.branch);
                        (
                            StartModel { stage: StartStage::AwaitPlansDir, exclude: e, plans, ..s },
                            RequestModel::CreateDirAll { path: plans },
                        )
                    },
                },
                _ => (StartModel { exclude: e, ..s }, q),
            }
        },
        StartStage::AwaitPlansDir => match r {
            ReplyModel::Failed(e) => (over, fails_with(in_context("create plan directory"@, e))),
            _ => (
                StartModel { stage: StartStage::AwaitIdea, ..s },
                RequestModel::WriteNew { path: idea_file(s.plans), template: Template::Idea },
            ),
        },
        StartStage::AwaitIdea => match r {
            ReplyModel::Failed(e) => (over, fails_with(write_error_message(idea_file(s.plans), e))),
            _ => (
                StartModel { stage: StartStage::AwaitPlan, ..s },
                RequestModel::WriteNew { path: plan_file(s.plans), template: Template::Plan },
            ),
        },
        StartStage::AwaitPlan => match r {
            ReplyModel::Failed(e) => (over, fails_with(write_error_message(plan_file(s.plans), e))),
            _ => (
                StartModel { stage: StartStage::AwaitTasks, ..s },
                RequestModel::WriteNew { path: tasks_file(s.plans), template: Template::Tasks },
            ),
        },
        StartStage::AwaitTasks => match r {
            ReplyModel::Failed(e) => (over, fails_with(write_error_message(tasks_file(s.plans), e))),
            _ => (
                StartModel { stage: StartStage::AwaitPrintBranch, ..s },
                RequestModel::Print { line: "branch: "@ + s.branch },
            ),
        },
        StartStage::AwaitPrintBranch => (
            StartModel { stage: StartStage::AwaitPrintWorktree, ..s },
            RequestModel::Print { line: "worktree: "@ + s.worktree },
        ),
        StartStage::AwaitPrintWorktree => (
            StartModel { stage: StartStage::AwaitPrintPlans, ..s },
            RequestModel::Print { line: "plans: "@ + s.plans },
        ),
        StartStage::AwaitPrintPlans => (over, succeeds()),
        StartStage::Over => (s, fails_with(seq![])),
    }
}

/// While the exclusion block is being added, its run is going on.
pub open spec fn start_wf(s: StartModel) -> bool {
    s.stage == StartStage::Exclude ==> s.exclude.stage != ExcludeStage::Over
}

/// Starts `acta start` for the topic type `topic` and the change `name`.
pub fn start(topic: &str, name: &str) -> (res: (StartFlow, Request))
    ensures
        (res.0@, res.1@) == start_begin(topic@, name@),
        start_wf(res.0@),
        start_waiting(res.0@) == waiting_for(res.1@),
{
    let mut flow = StartFlow {
        stage: StartStage::AwaitRoot,
        topic: topic.to_owned(),
        name: name.to_owned(),
        root: String::new(),
        original: String::new(),
        branch: String::new(),
        worktree: String::new(),
        plans: String::new(),
        exclude: ExcludeFlow::idle(),
    };
    match validate_name(topic, "topic type") {
        Err(m) => {
            flow.stage = StartStage::Over;
            return (flow, finish(Err(m)));
        },
        Ok(()) => {},
    }
    match validate_name(name, "change name") {
        Err(m) => {
            flow.stage = StartStage::Over;
            return (flow, finish(Err(m)));
        },
        Ok(()) => {},
    }
    (flow, git_request("rev-parse", strings1("--show-toplevel")))
}

impl StartFlow {
    /// Takes the reply to the last request and names the next one.
    pub fn step(&mut self, reply: Reply) -> (q: Request)
        requires
            start_wf(old(self)@),
            fits(start_waiting(old(self)@), reply@),
        ensures
            (final(self)@, q@) == start_next(old(self)@, reply@),
            start_wf(final(self)@),
            start_waiting(final(self)@) == waiting_for(q@),
    {
        match self.stage {
            StartStage::AwaitRoot => match read_git("rev-parse", &strings1("--show-toplevel"), &reply) {
                Err(m) => {
                    self.stage = StartStage::Over;
                    finish(Err(m))
                },
                Ok(root) => {
                    self.root = root;
                    self.stage = StartStage::AwaitHead;
                    git_request("rev-parse", strings2("--abbrev-ref", "HEAD"))
                },
            },
            StartStage::AwaitHead => match read_git("rev-parse", &strings2("--abbrev-ref", "HEAD"), &reply) {
                Err(m) => {
                    self.stage = StartStage::Over;
                    finish(Err(m))
                },
                Ok(original) => if is_head(original.as_str()) {
                    self.stage = StartStage::Over;
                    finish(Err(String::from_str("cannot start a plan from a detached HEAD")))
                } else {
                    let mut branch = self.topic.clone();
                    branch.append("/");
                    branch.append(self.name.as_str());
                    let reference = concat2("refs/heads/", branch.as_str());
                    self.original = original;
                    self.branch = branch;
                    self.stage = StartStage::AwaitShowRef;
                    git_request("show-ref", strings2("--verify", reference.as_str()))
                },
            },
            StartStage::AwaitShowRef => match reply {
                Reply::Git(output) => if output.success {
                    self.stage = StartStage::Over;
                    let mut m = String::from_str("branch `");
                    m.append(self.branch.as_str());
                    m.append("` already exists");
                    finish(Err(m))
                } else {
                    let worktree = worktree_of(self.root.as_str(), self.branch.as_str());
                    self.worktree = worktree.clone();
                    self.stage = StartStage::AwaitWorktreeCheck;
                    Request::Exists { path: worktree }
                },
                Reply::Failed(e) => {
                    self.stage = StartStage::Over;
                    let mut m = String::from_str("run `git ");
                    m.append("show-ref");
                    m.append("`: ");
                    m.append(e.as_str());
                    finish(Err(m))
                },
                _ => {
                    self.stage = StartStage::Over;
                    finish(Err(String::new()))
                },
            },
            StartStage::AwaitWorktreeCheck => {
                let exists = match reply {
                    Reply::Flag(b) => b,
                    _ => false,
                };
                if exists {
                    self.stage = StartStage::Over;
                    let mut m = String::from_str("worktree path `");
                    m.append(self.worktree.as_str());
                    m.append("` already exists");
                    finish(Err(m))
                } else {
                    self.stage = StartStage::AwaitFlow;
                    git_request(
                        "flow",
                        strings3(self.topic.as_str(), "start", self.name.as_str()),
                    )
                }
            },
            StartStage::AwaitFlow => match read_git(
                "flow",
                &strings3(self.topic.as_str(), "start", self.name.as_str()),
                &reply,
            ) {
                Err(m) => {
                    self.stage = StartStage::Over;
                    finish(Err(m))
                },
                Ok(_) => {
                    self.stage = StartStage::AwaitCheckout;
                    git_request("checkout", strings1(self.original.as_str()))
                },
            },
            StartStage::AwaitCheckout => match read_git("checkout", &strings1(self.original.as_str()), &reply) {
                Err(m) => {
                    self.stage = StartStage::Over;
                    let mut e = String::from_str("created `");
                    e.append(self.branch.as_str());
                    e.append("`, but could not restore `");
                    e.append(self.original.as_str());
                    e.append("`: ");
                    e.append(m.as_str());
                    finish(Err(e))
                },
                Ok(_) => {
                    self.stage = StartStage::AwaitWorktreeAdd;
                    git_request(
                        "worktree",
                        strings3("add", self.worktree.as_str(), self.branch.as_str()),
                    )
                },
            },
            StartStage::AwaitWorktreeAdd => match read_git(
                "worktree",
                &strings3("add", self.worktree.as_str(), self.branch.as_str()),
                &reply,
            ) {
                Err(m) => {
                    self.stage = StartStage::Over;
                    finish(Err(m))
                },
                Ok(_) => {
                    let (e, q) = add_exclude(self.root.as_str());
                    self.exclude = e;
                    self.stage = StartStage::Exclude;
                    q
                },
            },
            StartStage::Exclude => {
                let q = self.exclude.step(reply);
                match q {
                    Request::Finish { result } => match result {
                        Err(m) => {
                            self.stage = StartStage::Over;
                            finish(Err(m))
                        },
                        Ok(()) => {
                            let plans = plan_dir_of(self.worktree.as_str(), self.branch.as_str());
                            self.plans = plans.clone();
                            self.stage = StartStage::AwaitPlansDir;
                            Request::CreateDirAll { path: plans }
                        },
                    },
                    _ => q,
                }
            },
            StartStage::AwaitPlansDir => match reply {
                Reply::Failed(e) => {
                    self.stage = StartStage::Over;
                    finish(Err(with_context("create plan directory", e.as_str())))
                },
                _ => {
                    self.stage = StartStage::AwaitIdea;
                    Request::WriteNew { path: join(self.plans.as_str(), "01-idea.md"), template: Template::Idea }
                },
            },
            StartStage::AwaitIdea => match reply {
                Reply::Failed(e) => {
                    self.stage = StartStage::Over;
                    let p = join(self.plans.as_str(), "01-idea.md");
                    finish(Err(write_error(p.as_str(), e.as_str())))
                },
                _ => {
                    self.stage = StartStage::AwaitPlan;
                    Request::WriteNew { path: join(self.plans.as_str(), "02-plan.md"), template: Template::Plan }
                },
            },
            StartStage::AwaitPlan => match reply {
                Reply::Failed(e) => {
                    self.stage = StartStage::Over;
                    let p = join(self.plans.as_str(), "02-plan.md");
                    finish(Err(write_error(p.as_str(), e.as_str())))
                },
                _ => {
                    self.stage = StartStage::AwaitTasks;
                    Request::WriteNew { path: join(self.plans.as_str(), "03-tasks.md"), template: Template::Tasks }
                },
            },
            StartStage::AwaitTasks => match reply {
                Reply::Failed(e) => {
                    self.stage = StartStage::Over;
                    let p = join(self.plans.as_str(), "03-tasks.md");
                    finish(Err(write_error(p.as_str(), e.as_str())))
                },
                _ => {
                    self.stage = StartStage::AwaitPrintBranch;
                    print_request("branch: ", self.branch.as_str())
                },
            },
            StartStage::AwaitPrintBranch => {
                self.stage = StartStage::AwaitPrintWorktree;
                print_request("worktree: ", self.worktree.as_str())
            },
            StartStage::AwaitPrintWorktree => {
                self.stage = StartStage::AwaitPrintPlans;
                print_request("plans: ", self.plans.as_str())
            },
            StartStage::AwaitPrintPlans => {
                self.stage = StartStage::Over;
                finish(Ok(()))
            },
            StartStage::Over => finish(Err(String::new())),
        }
    }
}

} // verus!

verus! {

impl StartFlow {
    /// The kind of reply the command waits for.
    pub fn waiting(&self) -> (w: Waiting)
        ensures
            w == start_waiting(self@),
    {
        match self.stage {
            StartStage::AwaitRoot => Waiting::GitRun,
            StartStage::AwaitHead => Waiting::GitRun,
            StartStage::AwaitShowRef => Waiting::GitRun,
            StartStage::AwaitWorktreeCheck => Waiting::Flag,
            StartStage::AwaitFlow => Waiting::GitRun,
            StartStage::AwaitCheckout => Waiting::GitRun,
            StartStage::AwaitWorktreeAdd => Waiting::GitRun,
            StartStage::Exclude => self.exclude.waiting(),
            StartStage::Over => Waiting::Over,
            _ => Waiting::Outcome,
        }
    }
}

} // verus!

verus! {

/// What `start` keeps true at every step: both names were accepted; once
/// the checkout was read, the branch is `<type>/<name>` and the checkout was
/// on a branch; from the worktree check on, the worktree is
/// `<root>/.worktrees/<branch>`; from the plan directory on, the plans are
/// `<worktree>/docs/agents/plans/<branch>`.
pub open spec fn start_inv(s: StartModel) -> bool {
    let after_head = s.stage != StartStage::AwaitRoot && s.stage != StartStage::AwaitHead
        && s.stage != StartStage::Over;
    let after_show_ref = after_head && s.stage != StartStage::AwaitShowRef;
    let after_exclude = after_show_ref && s.stage != StartStage::AwaitWorktreeCheck && s.stage
        != StartStage::AwaitFlow && s.stage != StartStage::AwaitCheckout && s.stage
        != StartStage::AwaitWorktreeAdd && s.stage != StartStage::Exclude;
    &&& s.stage != StartStage::Over ==> valid_name(s.topic) && valid_name(s.name)
    &&& after_head ==> s.branch == branch_of(s.topic, s.name) && s.original != "HEAD"@
    &&& after_show_ref ==> s.worktree == worktree_dir(s.root, s.branch)
    &&& after_exclude ==> s.plans == plan_dir(s.worktree, s.branch)
}

/// `start` keeps `start_inv`, and it asks Git Flow to create the branch
/// only after every check passed: it reaches the worktree check only when
/// `git show-ref` found no such branch, it reaches that branch check only
/// when the checkout is on a branch, and it runs `git flow` only when the
/// worktree path is free.
pub proof fn lemma_start_checks_before_git_flow(s: StartModel, r: ReplyModel)
    requires
        start_inv(s),
        start_wf(s),
        fits(start_waiting(s), r),
    ensures
        start_inv(start_next(s, r).0),
        (start_next(s, r).1 matches RequestModel::Git { command, .. } && command == "flow"@) ==> (s.stage
            == StartStage::AwaitWorktreeCheck && r == ReplyModel::Flag(false)),
        (start_next(s, r).0.stage == StartStage::AwaitWorktreeCheck && s.stage
            != StartStage::AwaitWorktreeCheck) ==> (s.stage == StartStage::AwaitShowRef
            && r matches ReplyModel::Git { success: false, .. }),
        (start_next(s, r).0.stage == StartStage::AwaitShowRef && s.stage != StartStage::AwaitShowRef)
            ==> (s.stage == StartStage::AwaitHead && (git_reply("rev-parse"@, head_args(), r) matches Ok(
            b,
        ) && b != "HEAD"@)),
{
    reveal_strlit("flow");
    reveal_strlit("rev-parse");
    reveal_strlit("show-ref");
    reveal_strlit("checkout");
    reveal_strlit("worktree");
    let (t, q) = start_next(s, r);
    assert("flow"@ != "rev-parse"@ && "flow"@ != "show-ref"@ && "flow"@ != "checkout"@ && "flow"@
        != "worktree"@) by {
        assert("flow"@.len() != "rev-parse"@.len());
        assert("flow"@.len() != "show-ref"@.len());
        assert("flow"@.len() != "checkout"@.len());
        assert("flow"@.len() != "worktree"@.len());
    }
}

/// `begin` starts in a state that keeps `start_inv`.
pub proof fn lemma_start_begin_inv(topic: Seq<char>, name: Seq<char>)
    ensures
        start_inv(start_begin(topic, name).0),
{
}

/// For accepted names and a checkout root without a trailing `/`, the
/// worktree is `<root>/.worktrees/<type>/<name>` and its plans are in
/// `docs/agents/plans/<type>/<name>` inside it, as the documented layout says.
pub proof fn lemma_layout(root: Seq<char>, topic: Seq<char>, name: Seq<char>)
    requires
        valid_name(topic),
        valid_name(name),
        root.len() > 0,
        root.last() != '/',
    ensures
        worktree_dir(root, branch_of(topic, name)) == root + "/.worktrees/"@ + topic + "/"@ + name,
        plan_dir(worktree_dir(root, branch_of(topic, name)), branch_of(topic, name)) == root
            + "/.worktrees/"@ + topic + "/"@ + name + "/docs/agents/plans/"@ + topic + "/"@ + name,
{
    reveal_strlit("/");
    reveal_strlit("/.worktrees");
    reveal_strlit("/docs/agents/plans");
    reveal_strlit(".worktrees");
    reveal_strlit("/.worktrees/");
    reveal_strlit("docs/agents/plans");
    reveal_strlit("/docs/agents/plans/");
    let b = branch_of(topic, name);
    assert(topic[0] != '/') by {
        assert(crate::names::name_char(topic[0]));
    }
    assert(name.last() != '/') by {
        assert(crate::names::name_char(name[name.len() - 1]));
    }
    assert(b[0] == topic[0]);
    assert(b.last() == name.last());
    let w = worktree_dir(root, b);
    assert(crate::paths::worktrees_root(root) =~= root + "/.worktrees"@);
    assert(w =~= root + "/.worktrees/"@ + topic + "/"@ + name);
    assert(w.last() == name.last());
    assert(crate::paths::plans_root(w) =~= w + "/docs/agents/plans"@);
    assert(plan_dir(w, b) =~= w + "/docs/agents/plans/"@ + topic + "/"@ + name);
}

} // verus!

verus! {

/// The `git` commands of `start`, in the order it runs them: the top of
/// the checkout, the current branch, the check that the topic branch does
/// not exist, `git flow <type> start <name>`, the return to the original
/// branch, the new worktree, and the common Git directory.
pub open spec fn start_git_calls(s: StartModel) -> Seq<RequestModel> {
    let b = branch_of(s.topic, s.name);
    seq![
        RequestModel::Git { command: "rev-parse"@, args: toplevel_args() },
        RequestModel::Git { command: "rev-parse"@, args: head_args() },
        RequestModel::Git { command: "show-ref"@, args: seq!["--verify"@, "refs/heads/"@ + b] },
        RequestModel::Git { command: "flow"@, args: seq![s.topic, "start"@, s.name] },
        RequestModel::Git { command: "checkout"@, args: seq![s.original] },
        RequestModel::Git { command: "worktree"@, args: seq!["add"@, worktree_dir(s.root, b), b] },
        RequestModel::Git { command: "rev-parse"@, args: crate::exclude::common_dir_args() },
    ]
}

/// How many `git` commands `start` has asked for when it is at `stage`.
pub open spec fn git_calls_made(stage: StartStage) -> nat {
    match stage {
        StartStage::AwaitRoot => 1,
        StartStage::AwaitHead => 2,
        StartStage::AwaitShowRef => 3,
        StartStage::AwaitWorktreeCheck => 3,
        StartStage::AwaitFlow => 4,
        StartStage::AwaitCheckout => 5,
        StartStage::AwaitWorktreeAdd => 6,
        _ => 7,
    }
}

/// The first request of `start`, when the names are accepted, is the first
/// `git` command of the order.
pub proof fn lemma_start_first_git_call(topic: Seq<char>, name: Seq<char>)
    requires
        valid_name(topic),
        valid_name(name),
    ensures
        start_begin(topic, name).1 == start_git_calls(start_begin(topic, name).0)[0],
        git_calls_made(start_begin(topic, name).0.stage) == 1,
{
}

/// The `git` commands that `start` runs are, in order, a prefix of
/// `start_git_calls`: each step asks for the next command of that order or
/// for no `git` command at all, and the commands already asked for stay
/// what they were. So `start` never runs any other `git` command: it does
/// not commit, merge, reset, finish or delete anything.
pub proof fn lemma_start_git_calls_in_order(s: StartModel, r: ReplyModel)
    requires
        start_inv(s),
        start_wf(s),
        fits(start_waiting(s), r),
    ensures
        ({
            let (t, q) = start_next(s, r);
            let k = git_calls_made(s.stage);
            &&& q is Git ==> k < 7 && q == start_git_calls(t)[k as int] && git_calls_made(t.stage) == k + 1
            &&& (!(q is Git) && t.stage != StartStage::Over) ==> git_calls_made(t.stage) == k
            &&& t.stage != StartStage::Over ==> start_git_calls(t).take(k as int) == start_git_calls(s).take(
                k as int,
            )
        }),
{
    let (t, q) = start_next(s, r);
    let k = git_calls_made(s.stage);
    assert(start_git_calls(t).take(k as int) =~= start_git_calls(s).take(k as int)) by {
        if t.stage != StartStage::Over {
            assert forall|i: int| 0 <= i < k implies start_git_calls(t)[i] == start_git_calls(s)[i] by {}
        }
    }
}

} // verus!

verus! {

/// After the exclusion block is in place, whether it was added or already
/// there, `start` always goes on with the plan directory
/// `<worktree>/docs/agents/plans/<branch>`, then writes `01-idea.md`,
/// `02-plan.md` and `03-tasks.md` in it, then prints the branch, the
/// worktree and the plans, and only then finishes with success: each stage
/// of that chain is reached only from the one before it, after a reply that
/// is not a failure.
pub proof fn lemma_start_writes_plans_before_success(s: StartModel, r: ReplyModel)
    requires
        start_wf(s),
        fits(start_waiting(s), r),
    ensures
        ({
            let (t, q) = start_next(s, r);
            let p = s.plans;
            &&& (s.stage == StartStage::Exclude && exclude_next(s.exclude, r).1 == succeeds()) ==> (
            t.stage == StartStage::AwaitPlansDir && t.plans == plan_dir(s.worktree, s.branch) && q
                == RequestModel::CreateDirAll { path: plan_dir(s.worktree, s.branch) })
            &&& (t.stage == StartStage::AwaitPlansDir && s.stage != StartStage::AwaitPlansDir) ==> (
            s.stage == StartStage::Exclude && exclude_next(s.exclude, r).1 == succeeds())
            &&& (t.stage == StartStage::AwaitIdea && s.stage != StartStage::AwaitIdea) ==> (s.stage
                == StartStage::AwaitPlansDir && !(r is Failed) && q == RequestModel::WriteNew {
                path: join_path(p, "01-idea.md"@),
                template: Template::Idea,
            })
            &&& (t.stage == StartStage::AwaitPlan && s.stage != StartStage::AwaitPlan) ==> (s.stage
                == StartStage::AwaitIdea && !(r is Failed) && q == RequestModel::WriteNew {
                path: join_path(p, "02-plan.md"@),
                template: Template::Plan,
            })
            &&& (t.stage == StartStage::AwaitTasks && s.stage != StartStage::AwaitTasks) ==> (s.stage
                == StartStage::AwaitPlan && !(r is Failed) && q == RequestModel::WriteNew {
                path: join_path(p, "03-tasks.md"@),
                template: Template::Tasks,
            })
            &&& (t.stage == StartStage::AwaitPrintBranch && s.stage != StartStage::AwaitPrintBranch)
                ==> (s.stage == StartStage::AwaitTasks && !(r is Failed) && q
                == RequestModel::Print { line: "branch: "@ + s.branch })
            &&& (t.stage == StartStage::AwaitPrintWorktree && s.stage
                != StartStage::AwaitPrintWorktree) ==> (s.stage == StartStage::AwaitPrintBranch && q
                == RequestModel::Print { line: "worktree: "@ + s.worktree })
            &&& (t.stage == StartStage::AwaitPrintPlans && s.stage != StartStage::AwaitPrintPlans)
                ==> (s.stage == StartStage::AwaitPrintWorktree && q == RequestModel::Print {
                line: "plans: "@ + p,
            })
            &&& q == succeeds() ==> s.stage == StartStage::AwaitPrintPlans
            &&& s.stage != StartStage::Exclude ==> t.plans == s.plans
        }),
{
}

} // verus!
