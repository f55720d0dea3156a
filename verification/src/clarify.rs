//! `acta clarify <name>`: the next numbered clarification file of the plan
//! of the checked-out branch.
use vstd::prelude::*;

use crate::flow::{
    fails_with, finish, fits, git_reply, git_request, in_context, read_git, strings1, strings2,
    succeeds, waiting_for, with_context, write_error, write_error_message, Reply, ReplyModel,
    Request, RequestModel, Template, Waiting,
};
use crate::names::{invalid_name_message, valid_name, validate_name};
use crate::numbering::{clarity_name, next_clarity_file, next_number};
use crate::paths::{is_head, join, join_path, plan_directory, plan_directory_spec};
use crate::start::{head_args, toplevel_args};

verus! {

#[derive(Debug, Clone, Copy, PartialEq, Eq)]
pub enum ClarifyStage {
    AwaitBranch,
    AwaitRoot,
    AwaitIsDir,
    AwaitNames,
    AwaitWrite,
    AwaitPrint,
    Over,
}

/// A clarification being added: its slug, the branch and plan directory,
/// and the file being written.
pub struct ClarifyFlow {
    pub stage: ClarifyStage,
    pub name: String,
    pub branch: String,
    pub plans: String,
    pub path: String,
}

pub struct ClarifyModel {
    pub stage: ClarifyStage,
    pub name: Seq<char>,
    pub branch: Seq<char>,
    pub plans: Seq<char>,
    pub path: Seq<char>,
}

impl View for ClarifyFlow {
    type V = ClarifyModel;

    open spec fn view(&self) -> ClarifyModel {
        ClarifyModel {
            stage: self.stage,
            name: self.name@,
            branch: self.branch@,
            plans: self.plans@,
            path: self.path@,
        }
    }
}

pub open spec fn clarify_waiting(s: ClarifyModel) -> Waiting {
    match s.stage {
        ClarifyStage::AwaitBranch => Waiting::GitRun,
        ClarifyStage::AwaitRoot => Waiting::GitRun,
        ClarifyStage::AwaitIsDir => Waiting::Flag,
        ClarifyStage::AwaitNames => Waiting::Listing,
        ClarifyStage::AwaitWrite => Waiting::Outcome,
        ClarifyStage::AwaitPrint => Waiting::Outcome,
        ClarifyStage::Over => Waiting::Over,
    }
}

/// The file of the next clarification named `name` in the plan directory
/// `plans` that holds the files `names`.
pub open spec fn clarity_path(plans: Seq<char>, names: Seq<Seq<char>>, name: Seq<char>) -> Seq<char> {
    join_path(plans, clarity_name(next_number(names), name))
}

pub open spec fn clarify_begin(name: Seq<char>) -> (ClarifyModel, RequestModel) {
    let s = ClarifyModel {
        stage: ClarifyStage::AwaitBranch,
        name,
        branch: seq![],
        plans: seq![],
        path: seq![],
    };
    if !valid_name(name) {
        (
            ClarifyModel { stage: ClarifyStage::Over, ..s },
            fails_with(invalid_name_message("clarification name"@, name)),
        )
    } else {
        (s, RequestModel::Git { command: "rev-parse"@, args: head_args() })
    }
}

pub open spec fn clarify_next(s: ClarifyModel, r: ReplyModel) -> (ClarifyModel, RequestModel) {
    let over = ClarifyModel { stage: ClarifyStage::Over, ..s };
    match s.stage {
        ClarifyStage::AwaitBranch => match git_reply("rev-parse"@, head_args(), r) {
            Err(m) => (over, fails_with(m)),
            Ok(branch) => if branch == "HEAD"@ {
                (over, fails_with("cannot clarify a detached HEAD"@))
            } else if branch.len() == 0 {
                (over, fails_with(crate::paths::no_branch_message()))
            } else {
                (
                    ClarifyModel { stage: ClarifyStage::AwaitRoot, branch, ..s },
                    RequestModel::Git { command: "rev-parse"@, args: toplevel_args() },
                )
            },
        },
        ClarifyStage::AwaitRoot => match git_reply("rev-parse"@, toplevel_args(), r) {
            Err(m) => (over, fails_with(m)),
            Ok(root) => match plan_directory_spec(s.branch, root) {
                Err(m) => (over, fails_with(m)),
                Ok(plans) => (
                    ClarifyModel { stage: ClarifyStage::AwaitIsDir, plans, ..s },
                    RequestModel::IsDir { path: plans },
                ),
            },
        },
        ClarifyStage::AwaitIsDir => if r == ReplyModel::Flag(true) {
            (
                ClarifyModel { stage: ClarifyStage::AwaitNames, ..s },
                RequestModel::ReadDirNames { path: s.plans },
            )
        } else {
            (over, fails_with("no Acta plan directory at `"@ + s.plans + "`"@))
        },
        ClarifyStage::AwaitNames => match r {
            ReplyModel::Names(names) => {
                let path = clarity_path(s.plans, names, s.name);
                (
                    ClarifyModel { stage: ClarifyStage::AwaitWrite, path, ..s },
                    RequestModel::WriteNew { path, template: Template::Clarification },
                )
            },
            ReplyModel::Failed(e) => (over, fails_with(in_context("read plan directory"@, e))),
            _ => (over, fails_with(seq![])),
        },
        ClarifyStage::AwaitWrite => match r {
            ReplyModel::Failed(e) => (over, fails_with(write_error_message(s.path, e))),
            _ => (
                ClarifyModel { stage: ClarifyStage::AwaitPrint, ..s },
                RequestModel::Print { line: s.path },
            ),
        },
        ClarifyStage::AwaitPrint => (over, succeeds()),
        ClarifyStage::Over => (s, fails_with(seq![])),
    }
}

/// Starts `acta clarify` for the clarification slug `name`.
pub fn clarify(name: &str) -> (res: (ClarifyFlow, Request))
    ensures
        (res.0@, res.1@) == clarify_begin(name@),
        clarify_waiting(res.0@) == waiting_for(res.1@),
{
    let mut flow = ClarifyFlow {
        stage: ClarifyStage::AwaitBranch,
        name: name.to_owned(),
        branch: String::new(),
        plans: String::new(),
        path: String::new(),
    };
    match validate_name(name, "clarification name") {
        Err(m) => {
            flow.stage = ClarifyStage::Over;
            (flow, finish(Err(m)))
        },
        Ok(()) => (flow, git_request("rev-parse", strings2("--abbrev-ref", "HEAD"))),
    }
}

impl ClarifyFlow {
    /// Takes the reply to the last request and names the next one.
    pub fn step(&mut self, reply: Reply) -> (q: Request)
        requires
            fits(clarify_waiting(old(self)@), reply@),
        ensures
            (final(self)@, q@) == clarify_next(old(self)@, reply@),
            clarify_waiting(final(self)@) == waiting_for(q@),
    {
        match self.stage {
            ClarifyStage::AwaitBranch => match read_git("rev-parse", &strings2("--abbrev-ref", "HEAD"), &reply) {
                Err(m) => {
                    self.stage = ClarifyStage::Over;
                    finish(Err(m))
                },
                Ok(branch) => if is_head(branch.as_str()) {
                    self.stage = ClarifyStage::Over;
                    finish(Err(String::from_str("cannot clarify a detached HEAD")))
                } else if branch.unicode_len() == 0 {
                    self.stage = ClarifyStage::Over;
                    finish(Err(String::from_str("the current checkout has no branch")))
                } else {
                    self.branch = branch;
                    self.stage = ClarifyStage::AwaitRoot;
                    git_request("rev-parse", strings1("--show-toplevel"))
                },
            },
            ClarifyStage::AwaitRoot => match read_git("rev-parse", &strings1("--show-toplevel"), &reply) {
                Err(m) => {
                    self.stage = ClarifyStage::Over;
                    finish(Err(m))
                },
                Ok(root) => match plan_directory(self.branch.as_str(), root.as_str()) {
                    Err(m) => {
                        self.stage = ClarifyStage::Over;
                        finish(Err(m))
                    },
                    Ok(plans) => {
                        self.plans = plans.clone();
                        self.stage = ClarifyStage::AwaitIsDir;
                        Request::IsDir { path: plans }
                    },
                },
            },
            ClarifyStage::AwaitIsDir => {
                let found = match reply {
                    Reply::Flag(b) => b,
                    _ => false,
                };
                if found {
                    self.stage = ClarifyStage::AwaitNames;
                    Request::ReadDirNames { path: self.plans.clone() }
                } else {
                    self.stage = ClarifyStage::Over;
                    let mut m = String::from_str("no Acta plan directory at `");
                    m.append(self.plans.as_str());
                    m.append("`");
                    finish(Err(m))
                }
            },
            ClarifyStage::AwaitNames => match reply {
                Reply::Names(names) => {
                    let file = next_clarity_file(&names, self.name.as_str());
                    let path = join(self.plans.as_str(), file.as_str());
                    self.path = path.clone();
                    self.stage = ClarifyStage::AwaitWrite;
                    Request::WriteNew { path, template: Template::Clarification }
                },
                Reply::Failed(e) => {
                    self.stage = ClarifyStage::Over;
                    finish(Err(with_context("read plan directory", e.as_str())))
                },
                _ => {
                    self.stage = ClarifyStage::Over;
                    finish(Err(String::new()))
                },
            },
            ClarifyStage::AwaitWrite => match reply {
                Reply::Failed(e) => {
                    self.stage = ClarifyStage::Over;
                    finish(Err(write_error(self.path.as_str(), e.as_str())))
                },
                _ => {
                    self.stage = ClarifyStage::AwaitPrint;
                    Request::Print { line: self.path.clone() }
                },
            },
            ClarifyStage::AwaitPrint => {
                self.stage = ClarifyStage::Over;
                finish(Ok(()))
            },
            ClarifyStage::Over => finish(Err(String::new())),
        }
    }
}

} // verus!

verus! {

impl ClarifyFlow {
    /// The kind of reply the command waits for.
    pub fn waiting(&self) -> (w: Waiting)
        ensures
            w == clarify_waiting(self@),
    {
        match self.stage {
            ClarifyStage::AwaitBranch => Waiting::GitRun,
            ClarifyStage::AwaitRoot => Waiting::GitRun,
            ClarifyStage::AwaitIsDir => Waiting::Flag,
            ClarifyStage::AwaitNames => Waiting::Listing,
            ClarifyStage::AwaitWrite => Waiting::Outcome,
            ClarifyStage::AwaitPrint => Waiting::Outcome,
            ClarifyStage::Over => Waiting::Over,
        }
    }
}

} // verus!

verus! {

/// Given the listing `names` of the plan directory, `clarify` creates, from
/// the clarification template, the file `<number>-<name>-clarity.md` in
/// that directory, where the number (written with at least two digits) is
/// greater than the number that starts every name of the listing and is one
/// more than the greatest of them, or 4 when no name starts with a number.
pub proof fn lemma_clarify_writes_next_number(s: ClarifyModel, names: Seq<Seq<char>>)
    requires
        s.stage == ClarifyStage::AwaitNames,
    ensures
        exists|k: nat|
            {
                &&& #[trigger] clarify_next(s, ReplyModel::Names(names)).1 == (RequestModel::WriteNew {
                    path: join_path(
                        s.plans,
                        crate::decimal::padded2(k) + "-"@ + s.name + "-clarity.md"@,
                    ),
                    template: Template::Clarification,
                })
                &&& forall|i: int|
                    0 <= i < names.len() ==> (#[trigger] crate::numbering::prefix_number(names[i]) matches Some(x)
                        ==> x < k)
                &&& (exists|i: int|
                    0 <= i < names.len() && #[trigger] crate::numbering::prefix_number(names[i]) == Some(
                        (k - 1) as nat,
                    )) || (k == 4 && forall|i: int|
                    0 <= i < names.len() ==> #[trigger] crate::numbering::prefix_number(names[i]) is None)
            },
{
    let k = next_number(names);
    crate::numbering::lemma_max_prefix_attained(names);
    assert forall|i: int|
        0 <= i < names.len() implies (#[trigger] crate::numbering::prefix_number(names[i]) matches Some(x) ==> x < k) by {
        if crate::numbering::prefix_number(names[i]) is Some {
            crate::numbering::lemma_next_number_is_fresh(names, i);
        }
    }
    assert(clarify_next(s, ReplyModel::Names(names)).1 == (RequestModel::WriteNew {
        path: join_path(s.plans, crate::decimal::padded2(k) + "-"@ + s.name + "-clarity.md"@),
        template: Template::Clarification,
    }));
}

} // verus!

verus! {

/// `clarify` succeeds only at the end of this chain: on a branch (neither
/// `HEAD` nor empty) it asks for the top of the checkout; the plan
/// directory is `<root>/docs/agents/plans/<branch>`; only when that is a
/// directory is it listed; the file written after the listing is inside it;
/// its path is printed only after it was written; and success comes only
/// after that print.
pub proof fn lemma_clarify_chain(s: ClarifyModel, r: ReplyModel)
    requires
        fits(clarify_waiting(s), r),
    ensures
        ({
            let (t, q) = clarify_next(s, r);
            &&& (t.stage == ClarifyStage::AwaitRoot && s.stage != ClarifyStage::AwaitRoot) ==> (s.stage
                == ClarifyStage::AwaitBranch && t.branch != "HEAD"@ && t.branch.len() > 0 && git_reply(
                "rev-parse"@,
                head_args(),
                r,
            ) == Ok::<Seq<char>, Seq<char>>(t.branch))
            &&& (t.stage == ClarifyStage::AwaitIsDir && s.stage != ClarifyStage::AwaitIsDir) ==> (
            s.stage == ClarifyStage::AwaitRoot && (git_reply("rev-parse"@, toplevel_args(), r) matches Ok(
                root,
            ) && t.plans == join_path(join_path(root, "docs/agents/plans"@), s.branch)) && q
                == RequestModel::IsDir { path: t.plans })
            &&& (t.stage == ClarifyStage::AwaitNames && s.stage != ClarifyStage::AwaitNames) ==> (
            s.stage == ClarifyStage::AwaitIsDir && r == ReplyModel::Flag(true) && q
                == RequestModel::ReadDirNames { path: s.plans })
            &&& (t.stage == ClarifyStage::AwaitWrite && s.stage != ClarifyStage::AwaitWrite) ==> (
            s.stage == ClarifyStage::AwaitNames && r is Names && exists|f: Seq<char>|
                t.path == join_path(s.plans, f) && q == RequestModel::WriteNew {
                    path: t.path,
                    template: Template::Clarification,
                })
            &&& (t.stage == ClarifyStage::AwaitPrint && s.stage != ClarifyStage::AwaitPrint) ==> (
            s.stage == ClarifyStage::AwaitWrite && !(r is Failed) && q == RequestModel::Print {
                line: s.path,
            })
            &&& q == succeeds() ==> s.stage == ClarifyStage::AwaitPrint
        }),
{
    let (t, q) = clarify_next(s, r);
    if t.stage == ClarifyStage::AwaitWrite && s.stage != ClarifyStage::AwaitWrite {
        let names = r->Names_0;
        let f = clarity_name(next_number(names), s.name);
        assert(t.path == join_path(s.plans, f));
    }
}

} // verus!
