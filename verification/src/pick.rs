//! `acta worktrees`: the user picks a worktree and its path is copied to
//! the clipboard.
use vstd::prelude::*;

use crate::clipboard::{
    copy_to_clipboard,
    clipboard_begin, clipboard_idle, clipboard_next, clipboard_waiting, ClipboardFlow,
    ClipboardModel, ClipboardStage,
};
use crate::flow::{
    fails_with, finish, fits, git_reply, git_request, in_context, print_request, read_git,
    strings2, succeeds, waiting_for, with_context, Reply, ReplyModel, Request, RequestModel,
    Waiting,
};
use crate::worktrees::{
    choice_label, models, parse_worktrees, worktree_choices, worktrees_of, Worktree,
};

verus! {

#[derive(Debug, Clone, Copy, PartialEq, Eq)]
pub enum PickStage {
    AwaitListing,
    AwaitChoice,
    Copy,
    AwaitPrint,
    Over,
}

/// Picking a worktree: the worktrees listed, the path picked, and the copy
/// to the clipboard.
pub struct PickFlow {
    pub stage: PickStage,
    pub entries: Vec<Worktree>,
    pub path: String,
    pub clipboard: ClipboardFlow,
}

pub struct PickModel {
    pub stage: PickStage,
    pub entries: Seq<(Seq<char>, Seq<char>)>,
    pub path: Seq<char>,
    pub clipboard: ClipboardModel,
}

impl View for PickFlow {
    type V = PickModel;

    open spec fn view(&self) -> PickModel {
        PickModel {
            stage: self.stage,
            entries: models(self.entries@),
            path: self.path@,
            clipboard: self.clipboard@,
        }
    }
}

pub open spec fn list_args() -> Seq<Seq<char>> {
    seq!["list"@, "--porcelain"@]
}

pub open spec fn pick_wf(s: PickModel) -> bool {
    &&& s.clipboard.wf()
    &&& s.stage == PickStage::Copy ==> s.clipboard.stage != ClipboardStage::Over
}

pub open spec fn pick_waiting(s: PickModel) -> Waiting {
    match s.stage {
        PickStage::AwaitListing => Waiting::GitRun,
        PickStage::AwaitChoice => Waiting::Choice(s.entries.len() as usize),
        PickStage::Copy => clipboard_waiting(s.clipboard),
        PickStage::AwaitPrint => Waiting::Outcome,
        PickStage::Over => Waiting::Over,
    }
}

pub open spec fn pick_begin() -> (PickModel, RequestModel) {
    (
        PickModel { stage: PickStage::AwaitListing, entries: seq![], path: seq![], clipboard: clipboard_idle() },
        RequestModel::Git { command: "worktree"@, args: list_args() },
    )
}

pub open spec fn pick_next(s: PickModel, r: ReplyModel) -> (PickModel, RequestModel) {
    let over = PickModel { stage: PickStage::Over, ..s };
    match s.stage {
        PickStage::AwaitListing => match git_reply("worktree"@, list_args(), r) {
            Err(m) => (over, fails_with(m)),
            Ok(out) => match worktrees_of(out) {
                Err(m) => (over, fails_with(m)),
                Ok(entries) => (
                    PickModel { stage: PickStage::AwaitChoice, entries, ..s },
                    RequestModel::Choose {
                        prompt: "Choose a worktree"@,
                        items: entries.map_values(|w: (Seq<char>, Seq<char>)| choice_label(w)),
                    },
                ),
            },
        },
        PickStage::AwaitChoice => match r {
            ReplyModel::Index(i) => {
                let path = s.entries[i as int].0;
                let (c, q) = clipboard_begin(path);
                (PickModel { stage: PickStage::Copy, path, clipboard: c, ..s }, q)
            },
            ReplyModel::Failed(e) => (over, fails_with(in_context("choose a worktree"@, e))),
            _ => (over, fails_with(seq![])),
        },
        PickStage::Copy => {
            let (c, q) = clipboard_next(s.clipboard, r);
            match q {
                RequestModel::Finish { result } => match result {
                    Err(m) => (PickModel { stage: PickStage::Over, clipboard: c, ..s }, fails_with(m)),
                    Ok(()) => (
                        PickModel { stage: PickStage::AwaitPrint, clipboard: c, ..s },
                        RequestModel::Print { line: "copied "@ + s.path },
                    ),
                },
                _ => (PickModel { clipboard: c, ..s }, q),
            }
        },
        PickStage::AwaitPrint => (over, succeeds()),
        PickStage::Over => (s, fails_with(seq![])),
    }
}

/// Starts `acta worktrees`.
pub fn worktrees() -> (res: (PickFlow, Request))
    ensures
        (res.0@, res.1@) == pick_begin(),
        pick_wf(res.0@),
        pick_waiting(res.0@) == waiting_for(res.1@),
{
    let flow = PickFlow {
        stage: PickStage::AwaitListing,
        entries: Vec::new(),
        path: String::new(),
        clipboard: ClipboardFlow::idle(),
    };
    proof {
        assert(models(flow.entries@) =~= seq![]);
    }
    (flow, git_request("worktree", strings2("list", "--porcelain")))
}

impl PickFlow {
    /// Takes the reply to the last request and names the next one.
    pub fn step(&mut self, reply: Reply) -> (q: Request)
        requires
            pick_wf(old(self)@),
            fits(pick_waiting(old(self)@), reply@),
        ensures
            (final(self)@, q@) == pick_next(old(self)@, reply@),
            pick_wf(final(self)@),
            pick_waiting(final(self)@) == waiting_for(q@),
    {
        match self.stage {
            PickStage::AwaitListing => match read_git("worktree", &strings2("list", "--porcelain"), &reply) {
                Err(m) => {
                    self.stage = PickStage::Over;
                    finish(Err(m))
                },
                Ok(out) => match parse_worktrees(out.as_str()) {
                    Err(m) => {
                        self.stage = PickStage::Over;
                        finish(Err(m))
                    },
                    Ok(entries) => {
                        let items = worktree_choices(&entries);
                        self.entries = entries;
                        self.stage = PickStage::AwaitChoice;
                        Request::Choose { prompt: String::from_str("Choose a worktree"), items }
                    },
                },
            },
            PickStage::AwaitChoice => match reply {
                Reply::Index(i) => {
                    let path = self.entries[i].path.clone();
                    let (c, q) = copy_to_clipboard(path.as_str());
                    self.path = path;
                    self.clipboard = c;
                    self.stage = PickStage::Copy;
                    q
                },
                Reply::Failed(e) => {
                    self.stage = PickStage::Over;
                    finish(Err(with_context("choose a worktree", e.as_str())))
                },
                _ => {
                    self.stage = PickStage::Over;
                    finish(Err(String::new()))
                },
            },
            PickStage::Copy => {
                let q = self.clipboard.step(reply);
                match q {
                    Request::Finish { result } => match result {
                        Err(m) => {
                            self.stage = PickStage::Over;
                            finish(Err(m))
                        },
                        Ok(()) => {
                            self.stage = PickStage::AwaitPrint;
                            print_request("copied ", self.path.as_str())
                        },
                    },
                    _ => q,
                }
            },
            PickStage::AwaitPrint => {
                self.stage = PickStage::Over;
                finish(Ok(()))
            },
            PickStage::Over => finish(Err(String::new())),
        }
    }
}

} // verus!

verus! {

impl PickFlow {
    /// The kind of reply the command waits for.
    pub fn waiting(&self) -> (w: Waiting)
        ensures
            w == pick_waiting(self@),
    {
        match self.stage {
            PickStage::AwaitListing => Waiting::GitRun,
            PickStage::AwaitChoice => Waiting::Choice(self.entries.len()),
            PickStage::Copy => self.clipboard.waiting(),
            PickStage::AwaitPrint => Waiting::Outcome,
            PickStage::Over => Waiting::Over,
        }
    }
}

} // verus!

verus! {

/// The path picked is the path copied: the menu shows each worktree, in
/// order, as `<path>  [<branch>]`; picking item `i` starts copying exactly
/// the path of the `i`-th worktree, with the first clipboard helper; while
/// the copy runs, the worktrees, the chosen path and the text being copied
/// stay the same, the text fed to a helper is that path, and the path
/// printed at the end is that path.
pub proof fn lemma_pick_copies_chosen_path(s: PickModel, r: ReplyModel)
    requires
        pick_wf(s),
        fits(pick_waiting(s), r),
    ensures
        ({
            let (t, q) = pick_next(s, r);
            &&& (s.stage == PickStage::AwaitListing && q is Choose) ==> (t.stage == PickStage::AwaitChoice
                && q->Choose_items.len() == t.entries.len() && forall|j: int|
                0 <= j < t.entries.len() ==> #[trigger] q->Choose_items[j] == t.entries[j].0 + "  ["@
                    + t.entries[j].1 + "]"@)
            &&& (s.stage == PickStage::AwaitChoice && r is Index) ==> ({
                let i = r->Index_0 as int;
                &&& t.stage == PickStage::Copy
                &&& t.entries == s.entries
                &&& t.path == s.entries[i].0
                &&& t.clipboard.text == s.entries[i].0
                &&& q == RequestModel::Spawn { program: "wl-copy"@, args: seq![] }
            })
            &&& s.stage == PickStage::Copy ==> (t.path == s.path && t.entries == s.entries
                && t.clipboard.text == s.clipboard.text)
            &&& (s.stage == PickStage::Copy && q is FeedInput) ==> q == RequestModel::FeedInput {
                text: s.clipboard.text,
            }
            &&& (t.stage == PickStage::AwaitPrint && s.stage != PickStage::AwaitPrint) ==> (s.stage
                == PickStage::Copy && q == RequestModel::Print { line: "copied "@ + s.path })
        }),
{
    reveal_strlit("wl-copy");
}

} // verus!
