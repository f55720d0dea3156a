//! The command line of `acta`, and the session that carries out a command.
use vstd::prelude::*;

use crate::agentsmd::{agentsmd, agentsmd_begin, agentsmd_next, agentsmd_waiting, agentsmd_wf, AgentsmdFlow, AgentsmdModel};
use crate::clarify::{clarify, clarify_begin, clarify_next, clarify_waiting, ClarifyFlow, ClarifyModel};
use crate::flow::{fails_with, finish, fits, reply_fits, waiting_for, Reply, ReplyModel, Request, RequestModel, Waiting};
use crate::init::{init, init_begin, init_next, init_waiting, init_wf, InitFlow, InitModel};
use crate::names::{parse_topic_branch, topic_branch};
use crate::pick::{pick_begin, worktrees, pick_next, pick_waiting, pick_wf, PickFlow, PickModel};
use crate::start::{start, start_begin, start_next, start_waiting, start_wf, StartFlow, StartModel};

verus! {

/// The commands of `acta`.
pub enum CommandKind {
    /// Write `AGENTS.md` from a template.
    Agentsmd,
    /// Prepare the repository.
    Init,
    /// Start a change on the topic branch `<type>/<name>`.
    Start { branch: String },
    /// Add a clarification to the plan of the current branch.
    Clarify { name: String },
    /// Pick a worktree and copy its path.
    Worktrees,
}

/// The parsed command line.
pub struct Cli {
    pub command: CommandKind,
}

/// A command being carried out.
pub enum Session {
    Agentsmd(AgentsmdFlow),
    Init(InitFlow),
    Start(StartFlow),
    Clarify(ClarifyFlow),
    Worktrees(PickFlow),
    /// The command was refused before it began.
    Over,
}

pub enum SessionModel {
    Agentsmd(AgentsmdModel),
    Init(InitModel),
    Start(StartModel),
    Clarify(ClarifyModel),
    Worktrees(PickModel),
    Over,
}

impl View for Session {
    type V = SessionModel;

    open spec fn view(&self) -> SessionModel {
        match self {
            Session::Agentsmd(f) => SessionModel::Agentsmd(f@),
            Session::Init(f) => SessionModel::Init(f@),
            Session::Start(f) => SessionModel::Start(f@),
            Session::Clarify(f) => SessionModel::Clarify(f@),
            Session::Worktrees(f) => SessionModel::Worktrees(f@),
            Session::Over => SessionModel::Over,
        }
    }
}

/// What each command keeps true between two steps.
pub open spec fn session_wf(s: SessionModel) -> bool {
    match s {
        SessionModel::Agentsmd(f) => agentsmd_wf(f),
        SessionModel::Init(f) => init_wf(f),
        SessionModel::Start(f) => start_wf(f),
        SessionModel::Clarify(_) => true,
        SessionModel::Worktrees(f) => pick_wf(f),
        SessionModel::Over => true,
    }
}

/// The kind of reply the session waits for.
pub open spec fn session_waiting(s: SessionModel) -> Waiting {
    match s {
        SessionModel::Agentsmd(f) => agentsmd_waiting(f),
        SessionModel::Init(f) => init_waiting(f),
        SessionModel::Start(f) => start_waiting(f),
        SessionModel::Clarify(f) => clarify_waiting(f),
        SessionModel::Worktrees(f) => pick_waiting(f),
        SessionModel::Over => Waiting::Over,
    }
}

/// How a command line begins: the session and its first request. `start`
/// first splits and checks its topic branch and is refused when that fails.
pub open spec fn session_begin(cli: CommandModel) -> (SessionModel, RequestModel) {
    match cli {
        CommandModel::Agentsmd => {
            let (f, q) = agentsmd_begin();
            (SessionModel::Agentsmd(f), q)
        },
        CommandModel::Init => {
            let (f, q) = init_begin();
            (SessionModel::Init(f), q)
        },
        CommandModel::Start(branch) => match topic_branch(branch) {
            Err(m) => (SessionModel::Over, fails_with(m)),
            Ok((t, n)) => {
                let (f, q) = start_begin(t, n);
                (SessionModel::Start(f), q)
            },
        },
        CommandModel::Clarify(name) => {
            let (f, q) = clarify_begin(name);
            (SessionModel::Clarify(f), q)
        },
        CommandModel::Worktrees => {
            let (f, q) = pick_begin();
            (SessionModel::Worktrees(f), q)
        },
    }
}

/// One step of the session.
pub open spec fn session_next(s: SessionModel, r: ReplyModel) -> (SessionModel, RequestModel) {
    match s {
        SessionModel::Agentsmd(f) => {
            let (g, q) = agentsmd_next(f, r);
            (SessionModel::Agentsmd(g), q)
        },
        SessionModel::Init(f) => {
            let (g, q) = init_next(f, r);
            (SessionModel::Init(g), q)
        },
        SessionModel::Start(f) => {
            let (g, q) = start_next(f, r);
            (SessionModel::Start(g), q)
        },
        SessionModel::Clarify(f) => {
            let (g, q) = clarify_next(f, r);
            (SessionModel::Clarify(g), q)
        },
        SessionModel::Worktrees(f) => {
            let (g, q) = pick_next(f, r);
            (SessionModel::Worktrees(g), q)
        },
        SessionModel::Over => (s, fails_with(seq![])),
    }
}

pub enum CommandModel {
    Agentsmd,
    Init,
    Start(Seq<char>),
    Clarify(Seq<char>),
    Worktrees,
}

impl View for Cli {
    type V = CommandModel;

    open spec fn view(&self) -> CommandModel {
        match &self.command {
            CommandKind::Agentsmd => CommandModel::Agentsmd,
            CommandKind::Init => CommandModel::Init,
            CommandKind::Start { branch } => CommandModel::Start(branch@),
            CommandKind::Clarify { name } => CommandModel::Clarify(name@),
            CommandKind::Worktrees => CommandModel::Worktrees,
        }
    }
}

/// Begins carrying out the command line: the session, and its first request.
pub fn run(cli: Cli) -> (res: (Session, Request))
    ensures
        (res.0@, res.1@) == session_begin(cli@),
        session_wf(res.0@),
        session_waiting(res.0@) == waiting_for(res.1@),
{
    match cli.command {
        CommandKind::Agentsmd => {
            let (f, q) = agentsmd();
            (Session::Agentsmd(f), q)
        },
        CommandKind::Init => {
            let (f, q) = init();
            (Session::Init(f), q)
        },
        CommandKind::Start { branch } => match parse_topic_branch(branch.as_str()) {
            Err(m) => (Session::Over, finish(Err(m))),
            Ok((t, n)) => {
                let (f, q) = start(t.as_str(), n.as_str());
                (Session::Start(f), q)
            },
        },
        CommandKind::Clarify { name } => {
            let (f, q) = clarify(name.as_str());
            (Session::Clarify(f), q)
        },
        CommandKind::Worktrees => {
            let (f, q) = worktrees();
            (Session::Worktrees(f), q)
        },
    }
}

impl Session {
    /// The kind of reply the session waits for.
    pub fn waiting(&self) -> (w: Waiting)
        ensures
            w == session_waiting(self@),
    {
        match self {
            Session::Agentsmd(f) => f.waiting(),
            Session::Init(f) => f.waiting(),
            Session::Start(f) => f.waiting(),
            Session::Clarify(f) => f.waiting(),
            Session::Worktrees(f) => f.waiting(),
            Session::Over => Waiting::Over,
        }
    }

    /// Whether `reply` is of the kind the session waits for; `resume` may
    /// be called with it exactly then.
    pub fn accepts(&self, reply: &Reply) -> (b: bool)
        ensures
            b == fits(session_waiting(self@), reply@),
    {
        reply_fits(self.waiting(), reply)
    }

    /// Takes the reply to the last request and names the next one.
    pub fn resume(&mut self, reply: Reply) -> (q: Request)
        requires
            session_wf(old(self)@),
            fits(session_waiting(old(self)@), reply@),
        ensures
            (final(self)@, q@) == session_next(old(self)@, reply@),
            session_wf(final(self)@),
            session_waiting(final(self)@) == waiting_for(q@),
    {
        match self {
            Session::Agentsmd(f) => f.step(reply),
            Session::Init(f) => f.step(reply),
            Session::Start(f) => f.step(reply),
            Session::Clarify(f) => f.step(reply),
            Session::Worktrees(f) => f.step(reply),
            Session::Over => finish(Err(String::new())),
        }
    }
}

} // verus!

verus! {

/// A branch that `start` accepts on the command line is never refused
/// again by the second check of its names: the command goes on to ask Git
/// for the top of the checkout.
pub proof fn lemma_accepted_branch_starts(branch: Seq<char>)
    requires
        topic_branch(branch) is Ok,
    ensures
        session_begin(CommandModel::Start(branch)).1 == (RequestModel::Git {
            command: "rev-parse"@,
            args: crate::start::toplevel_args(),
        }),
{
}

} // verus!
