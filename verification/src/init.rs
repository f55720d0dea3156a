//! `acta init`: prepares a Git repository for planning records.
use vstd::prelude::*;

use crate::exclude::{
    add_exclude, exclude_begin, exclude_idle, exclude_next, exclude_waiting, marker, ExcludeFlow,
    ExcludeModel, ExcludeStage,
};
use crate::flow::{
    fails_with, finish, fits, git_reply, git_request, in_context, print_request, read_git,
    strings1, succeeds, waiting_for, with_context, write_error, write_error_message, Reply,
    ReplyModel, Request, RequestModel, Template, Waiting,
};
use crate::paths::{
    ensure_skill_installed, join, join_path, missing_skill_message, plans_root, plans_root_of,
    skill_file, skill_path, worktrees_root,
};
use crate::start::toplevel_args;
use crate::text::{contains_seq, views};

verus! {

#[derive(Debug, Clone, Copy, PartialEq, Eq)]
pub enum InitStage {
    AwaitHome,
    AwaitSkill,
    AwaitRoot,
    AwaitPlansRoot,
    AwaitConventionsDir,
    AwaitConventionList,
    AwaitConventionCheck,
    AwaitConventionWrite,
    AwaitWorktreesRoot,
    Exclude,
    AwaitPrint,
    Over,
}

/// The preparation of a repository: the home directory, the checkout, the
/// bundled convention templates and the one being looked at, and the run
/// that adds the exclusion block.
pub struct InitFlow {
    pub stage: InitStage,
    pub home: String,
    pub root: String,
    pub conventions: Vec<String>,
    pub index: usize,
    pub exclude: ExcludeFlow,
}

pub struct InitModel {
    pub stage: InitStage,
    pub home: Seq<char>,
    pub root: Seq<char>,
    pub conventions: Seq<Seq<char>>,
    pub index: nat,
    pub exclude: ExcludeModel,
}

impl View for InitFlow {
    type V = InitModel;

    open spec fn view(&self) -> InitModel {
        InitModel {
            stage: self.stage,
            home: self.home@,
            root: self.root@,
            conventions: views(self.conventions@),
            index: self.index as nat,
            exclude: self.exclude@,
        }
    }
}

/// Where the convention files of a repository live.
pub open spec fn conventions_dir(root: Seq<char>) -> Seq<char> {
    join_path(root, "docs/agents/conventions"@)
}

/// The file of the convention template `name` in the repository at `root`.
pub open spec fn convention_file(root: Seq<char>, name: Seq<char>) -> Seq<char> {
    join_path(conventions_dir(root), name)
}

pub open spec fn init_waiting(s: InitModel) -> Waiting {
    match s.stage {
        InitStage::AwaitHome => Waiting::Lookup,
        InitStage::AwaitSkill => Waiting::Flag,
        InitStage::AwaitRoot => Waiting::GitRun,
        InitStage::AwaitPlansRoot => Waiting::Outcome,
        InitStage::AwaitConventionsDir => Waiting::Outcome,
        InitStage::AwaitConventionList => Waiting::Listing,
        InitStage::AwaitConventionCheck => Waiting::Flag,
        InitStage::AwaitConventionWrite => Waiting::Outcome,
        InitStage::AwaitWorktreesRoot => Waiting::Outcome,
        InitStage::Exclude => exclude_waiting(s.exclude),
        InitStage::AwaitPrint => Waiting::Outcome,
        InitStage::Over => Waiting::Over,
    }
}

pub open spec fn init_wf(s: InitModel) -> bool {
    &&& s.stage == InitStage::Exclude ==> s.exclude.stage != ExcludeStage::Over
    &&& s.index <= s.conventions.len()
    &&& (s.stage == InitStage::AwaitConventionCheck || s.stage == InitStage::AwaitConventionWrite)
        ==> s.index < s.conventions.len()
}

pub open spec fn no_home_message() -> Seq<char> {
    "cannot locate the home directory; `HOME` is not set"@
}

pub open spec fn init_begin() -> (InitModel, RequestModel) {
    (
        InitModel {
            stage: InitStage::AwaitHome,
            home: seq![],
            root: seq![],
            conventions: seq![],
            index: 0,
            exclude: exclude_idle(),
        },
        RequestModel::Home,
    )
}

/// Goes on with the convention template at `index`, or, after the last
/// one, with the worktree directory.
pub open spec fn next_convention(s: InitModel, index: nat) -> (InitModel, RequestModel) {
    if index < s.conventions.len() {
        (
            InitModel { stage: InitStage::AwaitConventionCheck, index, ..s },
            RequestModel::Exists { path: convention_file(s.root, s.conventions[index as int]) },
        )
    } else {
        (
            InitModel { stage: InitStage::AwaitWorktreesRoot, index, ..s },
            RequestModel::CreateDirAll { path: worktrees_root(s.root) },
        )
    }
}

pub open spec fn init_next(s: InitModel, r: ReplyModel) -> (InitModel, RequestModel) {
    let over = InitModel { stage: InitStage::Over, ..s };
    match s.stage {
        InitStage::AwaitHome => match r {
            ReplyModel::Text(home) => (
                InitModel { stage: InitStage::AwaitSkill, home, ..s },
                RequestModel::IsFile { path: skill_file(home) },
            ),
            _ => (over, fails_with(no_home_message())),
        },
        InitStage::AwaitSkill => if r == ReplyModel::Flag(true) {
            (
                InitModel { stage: InitStage::AwaitRoot, ..s },
                RequestModel::Git { command: "rev-parse"@, args: toplevel_args() },
            )
        } else {
            (over, fails_with(missing_skill_message(skill_file(s.home))))
        },
        InitStage::AwaitRoot => match git_reply("rev-parse"@, toplevel_args(), r) {
            Err(m) => (over, fails_with(m)),
            Ok(root) => (
                InitModel { stage: InitStage::AwaitPlansRoot, root, ..s },
                RequestModel::CreateDirAll { path: plans_root(root) },
            ),
        },
        InitStage::AwaitPlansRoot => match r {
            ReplyModel::Failed(e) => (over, fails_with(in_context("create planning directory"@, e))),
            _ => (
                InitModel { stage: InitStage::AwaitConventionsDir, ..s },
                RequestModel::CreateDirAll { path: conventions_dir(s.root) },
            ),
        },
        InitStage::AwaitConventionsDir => match r {
            ReplyModel::Failed(e) => (over, fails_with(in_context("create conventions directory"@, e))),
            _ => (InitModel { stage: InitStage::AwaitConventionList, ..s }, RequestModel::Conventions),
        },
        InitStage::AwaitConventionList => match r {
            ReplyModel::Names(names) => next_convention(InitModel { conventions: names, ..s }, 0),
            ReplyModel::Failed(e) => (over, fails_with(in_context("list convention templates"@, e))),
            _ => (over, fails_with(seq![])),
        },
        InitStage::AwaitConventionCheck => if r == ReplyModel::Flag(true) {
            next_convention(s, s.index + 1)
        } else {
            (
                InitModel { stage: InitStage::AwaitConventionWrite, ..s },
                RequestModel::WriteNew {
                    path: convention_file(s.root, s.conventions[s.index as int]),
                    template: Template::Convention(s.index as usize),
                },
            )
        },
        InitStage::AwaitConventionWrite => match r {
            ReplyModel::Failed(e) => (
                over,
                fails_with(
                    write_error_message(convention_file(s.root, s.conventions[s.index as int]), e),
                ),
            ),
            _ => next_convention(s, s.index + 1),
        },
        InitStage::AwaitWorktreesRoot => match r {
            ReplyModel::Failed(e) => (over, fails_with(in_context("create worktree directory"@, e))),
            _ => {
                let (e, q) = exclude_begin(s.root);
                (InitModel { stage: InitStage::Exclude, exclude: e, ..s }, q)
            },
        },
        InitStage::Exclude => {
            let (e, q) = exclude_next(s.exclude, r);
            match q {
                RequestModel::Finish { result } => match result {
                    Err(m) => (InitModel { stage: InitStage::Over, exclude: e, ..s }, fails_with(m)),
                    Ok(()) => (
                        InitModel { stage: InitStage::AwaitPrint, exclude: e, ..s },
                        RequestModel::Print { line: "initialized Acta in "@ + s.root },
                    ),
                },
                _ => (InitModel { exclude: e, ..s }, q),
            }
        },
        InitStage::AwaitPrint => (over, succeeds()),
        InitStage::Over => (s, fails_with(seq![])),
    }
}

/// Starts `acta init`.
pub fn init() -> (res: (InitFlow, Request))
    ensures
        (res.0@, res.1@) == init_begin(),
        init_wf(res.0@),
        init_waiting(res.0@) == waiting_for(res.1@),
{
    let flow = InitFlow {
        stage: InitStage::AwaitHome,
        home: String::new(),
        root: String::new(),
        conventions: Vec::new(),
        index: 0,
        exclude: ExcludeFlow::idle(),
    };
    proof {
        assert(views(flow.conventions@) =~= seq![]);
    }
    (flow, Request::Home)
}

impl InitFlow {
    fn convention_path(&self) -> (p: String)
        requires
            self.index < self.conventions@.len(),
        ensures
            p@ == convention_file(self.root@, views(self.conventions@)[self.index as int]),
    {
        let dir = join(self.root.as_str(), "docs/agents/conventions");
        join(dir.as_str(), self.conventions[self.index].as_str())
    }

    fn advance(&mut self, index: usize) -> (q: Request)
        requires
            index <= old(self).conventions@.len(),
            old(self).stage != InitStage::Exclude,
        ensures
            (final(self)@, q@) == next_convention(old(self)@, index as nat),
            init_wf(final(self)@),
            init_waiting(final(self)@) == waiting_for(q@),
    {
        self.index = index;
        if index < self.conventions.len() {
            self.stage = InitStage::AwaitConventionCheck;
            Request::Exists { path: self.convention_path() }
        } else {
            self.stage = InitStage::AwaitWorktreesRoot;
            Request::CreateDirAll { path: join(self.root.as_str(), ".worktrees") }
        }
    }

    /// Takes the reply to the last request and names the next one.
    pub fn step(&mut self, reply: Reply) -> (q: Request)
        requires
            init_wf(old(self)@),
            fits(init_waiting(old(self)@), reply@),
        ensures
            (final(self)@, q@) == init_next(old(self)@, reply@),
            init_wf(final(self)@),
            init_waiting(final(self)@) == waiting_for(q@),
    {
        proof {
            assert(views(self.conventions@).len() == self.conventions@.len());
        }
        match self.stage {
            InitStage::AwaitHome => match reply {
                Reply::Text(home) => {
                    let skill = skill_path(home.as_str());
                    self.home = home;
                    self.stage = InitStage::AwaitSkill;
                    Request::IsFile { path: skill }
                },
                _ => {
                    self.stage = InitStage::Over;
                    finish(Err(String::from_str("cannot locate the home directory; `HOME` is not set")))
                },
            },
            InitStage::AwaitSkill => {
                let found = match reply {
                    Reply::Flag(b) => b,
                    _ => false,
                };
                match ensure_skill_installed(self.home.as_str(), found) {
                    Err(m) => {
                        self.stage = InitStage::Over;
                        finish(Err(m))
                    },
                    Ok(()) => {
                        self.stage = InitStage::AwaitRoot;
                        git_request("rev-parse", strings1("--show-toplevel"))
                    },
                }
            },
            InitStage::AwaitRoot => match read_git("rev-parse", &strings1("--show-toplevel"), &reply) {
                Err(m) => {
                    self.stage = InitStage::Over;
                    finish(Err(m))
                },
                Ok(root) => {
                    let plans = plans_root_of(root.as_str());
                    self.root = root;
                    self.stage = InitStage::AwaitPlansRoot;
                    Request::CreateDirAll { path: plans }
                },
            },
            InitStage::AwaitPlansRoot => match reply {
                Reply::Failed(e) => {
                    self.stage = InitStage::Over;
                    finish(Err(with_context("create planning directory", e.as_str())))
                },
                _ => {
                    self.stage = InitStage::AwaitConventionsDir;
                    Request::CreateDirAll { path: join(self.root.as_str(), "docs/agents/conventions") }
                },
            },
            InitStage::AwaitConventionsDir => match reply {
                Reply::Failed(e) => {
                    self.stage = InitStage::Over;
                    finish(Err(with_context("create conventions directory", e.as_str())))
                },
                _ => {
                    self.stage = InitStage::AwaitConventionList;
                    Request::Conventions
                },
            },
            InitStage::AwaitConventionList => match reply {
                Reply::Names(names) => {
                    self.conventions = names;
                    self.advance(0)
                },
                Reply::Failed(e) => {
                    self.stage = InitStage::Over;
                    finish(Err(with_context("list convention templates", e.as_str())))
                },
                _ => {
                    self.stage = InitStage::Over;
                    finish(Err(String::new()))
                },
            },
            InitStage::AwaitConventionCheck => {
                let exists = match reply {
                    Reply::Flag(b) => b,
                    _ => false,
                };
                let count = self.conventions.len();
                proof {
                    assert(self.index < count);
                }
                if exists {
                    self.advance(self.index + 1)
                } else {
                    self.stage = InitStage::AwaitConventionWrite;
                    Request::WriteNew {
                        path: self.convention_path(),
                        template: Template::Convention(self.index),
                    }
                }
            },
            InitStage::AwaitConventionWrite => match reply {
                Reply::Failed(e) => {
                    self.stage = InitStage::Over;
                    let p = self.convention_path();
                    finish(Err(write_error(p.as_str(), e.as_str())))
                },
                _ => {
                    let count = self.conventions.len();
                    proof {
                        assert(self.index < count);
                    }
                    self.advance(self.index + 1)
                },
            },
            InitStage::AwaitWorktreesRoot => match reply {
                Reply::Failed(e) => {
                    self.stage = InitStage::Over;
                    finish(Err(with_context("create worktree directory", e.as_str())))
                },
                _ => {
                    let (e, q) = add_exclude(self.root.as_str());
                    self.exclude = e;
                    self.stage = InitStage::Exclude;
                    q
                },
            },
            InitStage::Exclude => {
                let q = self.exclude.step(reply);
                match q {
                    Request::Finish { result } => match result {
                        Err(m) => {
                            self.stage = InitStage::Over;
                            finish(Err(m))
                        },
                        Ok(()) => {
                            self.stage = InitStage::AwaitPrint;
                            print_request("initialized Acta in ", self.root.as_str())
                        },
                    },
                    _ => q,
                }
            },
            InitStage::AwaitPrint => {
                self.stage = InitStage::Over;
                finish(Ok(()))
            },
            InitStage::Over => finish(Err(String::new())),
        }
    }

    /// The kind of reply the command waits for.
    pub fn waiting(&self) -> (w: Waiting)
        ensures
            w == init_waiting(self@),
    {
        match self.stage {
            InitStage::AwaitHome => Waiting::Lookup,
            InitStage::AwaitSkill => Waiting::Flag,
            InitStage::AwaitRoot => Waiting::GitRun,
            InitStage::AwaitPlansRoot => Waiting::Outcome,
            InitStage::AwaitConventionsDir => Waiting::Outcome,
            InitStage::AwaitConventionList => Waiting::Listing,
            InitStage::AwaitConventionCheck => Waiting::Flag,
            InitStage::AwaitConventionWrite => Waiting::Outcome,
            InitStage::AwaitWorktreesRoot => Waiting::Outcome,
            InitStage::Exclude => self.exclude.waiting(),
            InitStage::AwaitPrint => Waiting::Outcome,
            InitStage::Over => Waiting::Over,
        }
    }
}

} // verus!

verus! {

/// A convention file is written only when it is missing: once its check
/// reports that it exists, the next request writes nothing and moves on to
/// the next template; once it reports that it is missing, the next request
/// creates exactly that file from its template.
pub proof fn lemma_conventions_never_overwritten(s: InitModel, r: ReplyModel)
    requires
        init_wf(s),
        s.stage == InitStage::AwaitConventionCheck,
        fits(init_waiting(s), r),
    ensures
        r == ReplyModel::Flag(true) ==> !(init_next(s, r).1 is WriteNew) && init_next(s, r).0.index
            == s.index + 1,
        r == ReplyModel::Flag(false) ==> init_next(s, r).1 == (RequestModel::WriteNew {
            path: convention_file(s.root, s.conventions[s.index as int]),
            template: Template::Convention(s.index as usize),
        }),
{
}

/// The requests that change a file: creating one, or appending to one.
pub open spec fn writes(q: RequestModel) -> bool {
    q is WriteNew || q is OpenAppend || q is WriteOpen
}

/// A step of `init` that has written nothing yet and cannot be in the
/// middle of a write.
pub open spec fn init_quiet(s: InitModel) -> bool {
    &&& s.stage != InitStage::AwaitConventionWrite
    &&& s.stage == InitStage::Exclude ==> (s.exclude.stage == ExcludeStage::AwaitCommonDir
        || s.exclude.stage == ExcludeStage::AwaitInfoDir || s.exclude.stage
        == ExcludeStage::AwaitContent)
}

/// The reply that a repository where `init` already succeeded gives: every
/// convention file exists, and the exclude file holds the block.
pub open spec fn already_initialized(s: InitModel, r: ReplyModel) -> bool {
    &&& s.stage == InitStage::AwaitConventionCheck ==> r == ReplyModel::Flag(true)
    &&& (s.stage == InitStage::Exclude && s.exclude.stage == ExcludeStage::AwaitContent) ==> (r matches ReplyModel::Text(t)
        && contains_seq(t, marker()))
}

/// A second `init` changes nothing: on a repository where every convention
/// file exists and the exclude file holds the block, no step of `init`
/// creates or appends to a file; its only other effects create directories
/// that are already there.
pub proof fn lemma_second_init_writes_nothing(s: InitModel, r: ReplyModel)
    requires
        init_wf(s),
        init_quiet(s),
        fits(init_waiting(s), r),
        already_initialized(s, r),
    ensures
        !writes(init_next(s, r).1),
        init_quiet(init_next(s, r).0),
{
}

/// `init` starts quiet.
pub proof fn lemma_init_begins_quiet()
    ensures
        init_quiet(init_begin().0),
        !writes(init_begin().1),
{
}

} // verus!

verus! {

pub open spec fn in_convention_loop(stage: InitStage) -> bool {
    stage == InitStage::AwaitConventionList || stage == InitStage::AwaitConventionCheck || stage
        == InitStage::AwaitConventionWrite
}

/// `init` finishes with success only at the end of this chain: every way
/// out of the convention templates (also after writing the last one) creates
/// `<root>/.worktrees`; after that, and only after it, the exclusion run
/// starts by asking Git for the common directory; only when that run ends
/// with success is `initialized Acta in <root>` printed; and only after that
/// print does `init` succeed.
pub proof fn lemma_init_success_needs_worktrees_and_exclusion(s: InitModel, r: ReplyModel)
    requires
        init_wf(s),
        fits(init_waiting(s), r),
    ensures
        ({
            let (t, q) = init_next(s, r);
            &&& (in_convention_loop(s.stage) && t.stage != InitStage::Over && !in_convention_loop(
                t.stage,
            )) ==> (t.stage == InitStage::AwaitWorktreesRoot && q == RequestModel::CreateDirAll {
                path: join_path(s.root, ".worktrees"@),
            })
            &&& (t.stage == InitStage::AwaitWorktreesRoot && s.stage != InitStage::AwaitWorktreesRoot)
                ==> in_convention_loop(s.stage)
            &&& (t.stage == InitStage::Exclude && s.stage != InitStage::Exclude) ==> (s.stage
                == InitStage::AwaitWorktreesRoot && !(r is Failed) && t.exclude.root == s.root && q
                == RequestModel::Git { command: "rev-parse"@, args: seq!["--git-common-dir"@] })
            &&& (t.stage == InitStage::AwaitPrint && s.stage != InitStage::AwaitPrint) ==> (s.stage
                == InitStage::Exclude && exclude_next(s.exclude, r).1 == succeeds() && q
                == RequestModel::Print { line: "initialized Acta in "@ + s.root })
            &&& q == succeeds() ==> s.stage == InitStage::AwaitPrint
            &&& s.stage != InitStage::AwaitRoot ==> t.root == s.root
        }),
{
}

} // verus!

verus! {

/// The first part of `init`: it goes on only with a home directory, whose
/// `.agents/skills/acta/SKILL.md` it checks; it asks for the top of the
/// checkout only when that file exists; then it creates
/// `<root>/docs/agents/plans`, then `<root>/docs/agents/conventions`, and
/// only then asks for the bundled templates, which it goes through one by
/// one from the first, checking each file under the conventions directory,
/// and leaves only after the last.
pub proof fn lemma_init_prepares_in_order(s: InitModel, r: ReplyModel)
    requires
        init_wf(s),
        fits(init_waiting(s), r),
    ensures
        ({
            let (t, q) = init_next(s, r);
            &&& (t.stage == InitStage::AwaitSkill && s.stage != InitStage::AwaitSkill) ==> (s.stage
                == InitStage::AwaitHome && r == ReplyModel::Text(t.home) && q == RequestModel::IsFile {
                path: join_path(t.home, ".agents/skills/acta/SKILL.md"@),
            })
            &&& (t.stage == InitStage::AwaitRoot && s.stage != InitStage::AwaitRoot) ==> (s.stage
                == InitStage::AwaitSkill && r == ReplyModel::Flag(true))
            &&& (t.stage == InitStage::AwaitPlansRoot && s.stage != InitStage::AwaitPlansRoot) ==> (
            s.stage == InitStage::AwaitRoot && git_reply("rev-parse"@, toplevel_args(), r)
                == Ok::<Seq<char>, Seq<char>>(t.root) && q == RequestModel::CreateDirAll {
                path: join_path(t.root, "docs/agents/plans"@),
            })
            &&& (t.stage == InitStage::AwaitConventionsDir && s.stage != InitStage::AwaitConventionsDir)
                ==> (s.stage == InitStage::AwaitPlansRoot && !(r is Failed) && q
                == RequestModel::CreateDirAll { path: join_path(s.root, "docs/agents/conventions"@) })
            &&& (t.stage == InitStage::AwaitConventionList && s.stage
                != InitStage::AwaitConventionList) ==> (s.stage == InitStage::AwaitConventionsDir
                && !(r is Failed) && q == RequestModel::Conventions)
            &&& (s.stage == InitStage::AwaitConventionList && r is Names && t.stage
                != InitStage::Over) ==> (t.conventions == r->Names_0 && t.index == 0)
            &&& (in_convention_loop(s.stage) && s.stage != InitStage::AwaitConventionList) ==> (
            t.conventions == s.conventions && t.root == s.root && (t.stage
                == InitStage::AwaitConventionCheck ==> t.index == s.index + 1))
            &&& (t.stage == InitStage::AwaitConventionCheck) ==> (t.index < t.conventions.len() && q
                == RequestModel::Exists {
                path: join_path(join_path(t.root, "docs/agents/conventions"@), t.conventions[t.index as int]),
            })
            &&& (in_convention_loop(s.stage) && t.stage == InitStage::AwaitWorktreesRoot) ==> t.index
                == t.conventions.len()
        }),
{
}

} // verus!
