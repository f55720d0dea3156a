//! `acta agentsmd`: an `AGENTS.md` written from a template the user picks.
use vstd::prelude::*;

use crate::flow::{
    fails_with, finish, fits, in_context, print_request, succeeds, waiting_for, with_context,
    write_error, write_error_message, Reply, ReplyModel, Request, RequestModel, Template, Waiting,
};
use crate::text::views;

verus! {

/// The names of the templates offered, in menu order.
pub open spec fn agent_template_names() -> Seq<Seq<char>> {
    seq!["genericdev"@, "ponytail"@, "wisedev"@]
}

pub open spec fn agent_template(i: nat) -> Template {
    if i == 0 {
        Template::GenericDev
    } else if i == 1 {
        Template::Ponytail
    } else {
        Template::WiseDev
    }
}

pub open spec fn agents_file() -> Seq<char> {
    "AGENTS.md"@
}

#[derive(Debug, Clone, Copy, PartialEq, Eq)]
pub enum AgentsmdStage {
    AwaitExists,
    AwaitChoice,
    AwaitWrite,
    AwaitPrint,
    Over,
}

/// Writing `AGENTS.md`: where it stands, and the template picked.
pub struct AgentsmdFlow {
    pub stage: AgentsmdStage,
    pub chosen: usize,
}

pub struct AgentsmdModel {
    pub stage: AgentsmdStage,
    pub chosen: nat,
}

impl View for AgentsmdFlow {
    type V = AgentsmdModel;

    open spec fn view(&self) -> AgentsmdModel {
        AgentsmdModel { stage: self.stage, chosen: self.chosen as nat }
    }
}

pub open spec fn agentsmd_wf(s: AgentsmdModel) -> bool {
    s.chosen < 3
}

pub open spec fn agentsmd_waiting(s: AgentsmdModel) -> Waiting {
    match s.stage {
        AgentsmdStage::AwaitExists => Waiting::Flag,
        AgentsmdStage::AwaitChoice => Waiting::Choice(3),
        AgentsmdStage::AwaitWrite => Waiting::Outcome,
        AgentsmdStage::AwaitPrint => Waiting::Outcome,
        AgentsmdStage::Over => Waiting::Over,
    }
}

pub open spec fn agentsmd_begin() -> (AgentsmdModel, RequestModel) {
    (AgentsmdModel { stage: AgentsmdStage::AwaitExists, chosen: 0 }, RequestModel::Exists { path: agents_file() })
}

pub open spec fn agentsmd_next(s: AgentsmdModel, r: ReplyModel) -> (AgentsmdModel, RequestModel) {
    let over = AgentsmdModel { stage: AgentsmdStage::Over, ..s };
    match s.stage {
        AgentsmdStage::AwaitExists => if r == ReplyModel::Flag(true) {
            (over, fails_with("`AGENTS.md` already exists; refusing to overwrite it"@))
        } else {
            (
                AgentsmdModel { stage: AgentsmdStage::AwaitChoice, ..s },
                RequestModel::Choose {
                    prompt: "Choose an AGENTS.md template"@,
                    items: agent_template_names(),
                },
            )
        },
        AgentsmdStage::AwaitChoice => match r {
            ReplyModel::Index(i) => (
                AgentsmdModel { stage: AgentsmdStage::AwaitWrite, chosen: i },
                RequestModel::WriteNew { path: agents_file(), template: agent_template(i) },
            ),
            ReplyModel::Failed(e) => (over, fails_with(in_context("choose a template"@, e))),
            _ => (over, fails_with(seq![])),
        },
        AgentsmdStage::AwaitWrite => match r {
            ReplyModel::Failed(e) => (over, fails_with(write_error_message(agents_file(), e))),
            _ => (
                AgentsmdModel { stage: AgentsmdStage::AwaitPrint, ..s },
                RequestModel::Print {
                    line: "created AGENTS.md from "@ + agent_template_names()[s.chosen as int],
                },
            ),
        },
        AgentsmdStage::AwaitPrint => (over, succeeds()),
        AgentsmdStage::Over => (s, fails_with(seq![])),
    }
}

fn template_name(i: usize) -> (s: &'static str)
    requires
        i < 3,
    ensures
        s@ == agent_template_names()[i as int],
{
    if i == 0 {
        "genericdev"
    } else if i == 1 {
        "ponytail"
    } else {
        "wisedev"
    }
}

fn template_of(i: usize) -> (t: Template)
    ensures
        t == agent_template(i as nat),
{
    if i == 0 {
        Template::GenericDev
    } else if i == 1 {
        Template::Ponytail
    } else {
        Template::WiseDev
    }
}

/// Starts `acta agentsmd`.
pub fn agentsmd() -> (res: (AgentsmdFlow, Request))
    ensures
        (res.0@, res.1@) == agentsmd_begin(),
        agentsmd_wf(res.0@),
        agentsmd_waiting(res.0@) == waiting_for(res.1@),
{
    (
        AgentsmdFlow { stage: AgentsmdStage::AwaitExists, chosen: 0 },
        Request::Exists { path: String::from_str("AGENTS.md") },
    )
}

impl AgentsmdFlow {
    /// Takes the reply to the last request and names the next one.
    pub fn step(&mut self, reply: Reply) -> (q: Request)
        requires
            agentsmd_wf(old(self)@),
            fits(agentsmd_waiting(old(self)@), reply@),
        ensures
            (final(self)@, q@) == agentsmd_next(old(self)@, reply@),
            agentsmd_wf(final(self)@),
            agentsmd_waiting(final(self)@) == waiting_for(q@),
    {
        match self.stage {
            AgentsmdStage::AwaitExists => {
                let exists = match reply {
                    Reply::Flag(b) => b,
                    _ => false,
                };
                if exists {
                    self.stage = AgentsmdStage::Over;
                    finish(Err(String::from_str("`AGENTS.md` already exists; refusing to overwrite it")))
                } else {
                    self.stage = AgentsmdStage::AwaitChoice;
                    let mut items: Vec<String> = Vec::new();
                    items.push(String::from_str("genericdev"));
                    items.push(String::from_str("ponytail"));
                    items.push(String::from_str("wisedev"));
                    proof {
                        assert(views(items@) =~= agent_template_names());
                    }
                    Request::Choose { prompt: String::from_str("Choose an AGENTS.md template"), items }
                }
            },
            AgentsmdStage::AwaitChoice => match reply {
                Reply::Index(i) => {
                    self.chosen = i;
                    self.stage = AgentsmdStage::AwaitWrite;
                    Request::WriteNew { path: String::from_str("AGENTS.md"), template: template_of(i) }
                },
                Reply::Failed(e) => {
                    self.stage = AgentsmdStage::Over;
                    finish(Err(with_context("choose a template", e.as_str())))
                },
                _ => {
                    self.stage = AgentsmdStage::Over;
                    finish(Err(String::new()))
                },
            },
            AgentsmdStage::AwaitWrite => match reply {
                Reply::Failed(e) => {
                    self.stage = AgentsmdStage::Over;
                    finish(Err(write_error("AGENTS.md", e.as_str())))
                },
                _ => {
                    self.stage = AgentsmdStage::AwaitPrint;
                    print_request("created AGENTS.md from ", template_name(self.chosen))
                },
            },
            AgentsmdStage::AwaitPrint => {
                self.stage = AgentsmdStage::Over;
                finish(Ok(()))
            },
            AgentsmdStage::Over => finish(Err(String::new())),
        }
    }
}

} // verus!

verus! {

impl AgentsmdFlow {
    /// The kind of reply the command waits for.
    pub fn waiting(&self) -> (w: Waiting)
        ensures
            w == agentsmd_waiting(self@),
    {
        match self.stage {
            AgentsmdStage::AwaitExists => Waiting::Flag,
            AgentsmdStage::AwaitChoice => Waiting::Choice(3),
            AgentsmdStage::AwaitWrite => Waiting::Outcome,
            AgentsmdStage::AwaitPrint => Waiting::Outcome,
            AgentsmdStage::Over => Waiting::Over,
        }
    }
}

} // verus!

verus! {

/// `AGENTS.md` is written from the template the user picks: the menu lists
/// `genericdev`, `ponytail` and `wisedev` in that order, and picking item
/// `i` writes `AGENTS.md` (when it did not exist) from the template of that
/// item and then prints its name.
pub proof fn lemma_agentsmd_writes_chosen_template(s: AgentsmdModel, i: nat)
    requires
        s.stage == AgentsmdStage::AwaitExists,
        i < 3,
    ensures
        ({
            let menu = seq!["genericdev"@, "ponytail"@, "wisedev"@];
            let (s1, q1) = agentsmd_next(s, ReplyModel::Flag(false));
            let (s2, q2) = agentsmd_next(s1, ReplyModel::Index(i));
            let (s3, q3) = agentsmd_next(s2, ReplyModel::Done);
            &&& q1 == (RequestModel::Choose { prompt: "Choose an AGENTS.md template"@, items: menu })
            &&& q2 == (RequestModel::WriteNew {
                path: "AGENTS.md"@,
                template: if i == 0 {
                    Template::GenericDev
                } else if i == 1 {
                    Template::Ponytail
                } else {
                    Template::WiseDev
                },
            })
            &&& q3 == (RequestModel::Print { line: "created AGENTS.md from "@ + menu[i as int] })
            &&& agentsmd_next(s3, ReplyModel::Done).1 == succeeds()
        }),
{
}

/// An existing `AGENTS.md` is never overwritten: when it exists, the
/// command fails at once and writes nothing.
pub proof fn lemma_agentsmd_keeps_existing(s: AgentsmdModel)
    requires
        s.stage == AgentsmdStage::AwaitExists,
    ensures
        agentsmd_next(s, ReplyModel::Flag(true)).1 == fails_with(
            "`AGENTS.md` already exists; refusing to overwrite it"@,
        ),
        agentsmd_next(s, ReplyModel::Flag(true)).0.stage == AgentsmdStage::Over,
{
}

} // verus!
