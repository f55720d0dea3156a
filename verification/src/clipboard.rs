//! Copying a text to the clipboard with the first helper program that works.
use vstd::prelude::*;

use crate::flow::{
    fails_with, finish, fits, succeeds, waiting_for, Reply, ReplyModel, Request, RequestModel,
    Waiting,
};
use crate::text::{join, join_strings, views};

verus! {

/// The helper programs, in the order they are tried.
pub open spec fn backend_count() -> nat {
    4
}

pub open spec fn backend_program(i: nat) -> Seq<char> {
    if i == 0 {
        "wl-copy"@
    } else if i == 1 {
        "pbcopy"@
    } else if i == 2 {
        "xclip"@
    } else {
        "xsel"@
    }
}

pub open spec fn backend_args(i: nat) -> Seq<Seq<char>> {
    if i == 2 {
        seq!["-selection"@, "clipboard"@]
    } else if i == 3 {
        seq!["--clipboard"@, "--input"@]
    } else {
        seq![]
    }
}

/// The message when no helper could copy the text.
pub open spec fn copy_failed_message(failures: Seq<Seq<char>>) -> Seq<char> {
    if failures.len() == 0 {
        "could not copy path: install `wl-copy`, `pbcopy`, `xclip`, or `xsel`"@
    } else {
        "could not copy path; install `wl-copy`, `pbcopy`, `xclip`, or `xsel`: "@ + join(
            failures,
            "; "@,
        )
    }
}

#[derive(Debug, Clone, Copy, PartialEq, Eq)]
pub enum ClipboardStage {
    AwaitSpawn,
    AwaitFeed,
    AwaitExit,
    Over,
}

/// Copying `text`: the helper being tried, and what went wrong with the
/// helpers that started but failed.
pub struct ClipboardFlow {
    pub stage: ClipboardStage,
    pub text: String,
    pub backend: usize,
    pub failures: Vec<String>,
}

pub struct ClipboardModel {
    pub stage: ClipboardStage,
    pub text: Seq<char>,
    pub backend: nat,
    pub failures: Seq<Seq<char>>,
}

impl View for ClipboardFlow {
    type V = ClipboardModel;

    open spec fn view(&self) -> ClipboardModel {
        ClipboardModel {
            stage: self.stage,
            text: self.text@,
            backend: self.backend as nat,
            failures: views(self.failures@),
        }
    }
}

impl ClipboardModel {
    pub open spec fn wf(self) -> bool {
        self.stage != ClipboardStage::Over ==> self.backend < backend_count()
    }
}

pub open spec fn clipboard_waiting(s: ClipboardModel) -> Waiting {
    match s.stage {
        ClipboardStage::AwaitSpawn => Waiting::Outcome,
        ClipboardStage::AwaitFeed => Waiting::Feed,
        ClipboardStage::AwaitExit => Waiting::Exit,
        ClipboardStage::Over => Waiting::Over,
    }
}

pub open spec fn spawn_request(i: nat) -> RequestModel {
    RequestModel::Spawn { program: backend_program(i), args: backend_args(i) }
}

pub open spec fn clipboard_begin(text: Seq<char>) -> (ClipboardModel, RequestModel) {
    (
        ClipboardModel { stage: ClipboardStage::AwaitSpawn, text, backend: 0, failures: seq![] },
        spawn_request(0),
    )
}

/// Moves on to the next helper, or gives up after the last one.
pub open spec fn try_next(s: ClipboardModel, failures: Seq<Seq<char>>) -> (ClipboardModel, RequestModel) {
    if s.backend + 1 < backend_count() {
        (
            ClipboardModel {
                stage: ClipboardStage::AwaitSpawn,
                backend: s.backend + 1,
                failures,
                ..s
            },
            spawn_request(s.backend + 1),
        )
    } else {
        (
            ClipboardModel { stage: ClipboardStage::Over, failures, ..s },
            fails_with(copy_failed_message(failures)),
        )
    }
}

pub open spec fn clipboard_next(s: ClipboardModel, r: ReplyModel) -> (ClipboardModel, RequestModel) {
    let p = backend_program(s.backend);
    match s.stage {
        ClipboardStage::AwaitSpawn => match r {
            ReplyModel::Failed(_) => try_next(s, s.failures),
            _ => (
                ClipboardModel { stage: ClipboardStage::AwaitFeed, ..s },
                RequestModel::FeedInput { text: s.text },
            ),
        },
        ClipboardStage::AwaitFeed => match r {
            ReplyModel::Missing => try_next(s, s.failures.push("`"@ + p + "` did not accept input"@)),
            ReplyModel::Failed(e) => try_next(s, s.failures.push("write to `"@ + p + "`: "@ + e)),
            _ => (ClipboardModel { stage: ClipboardStage::AwaitExit, ..s }, RequestModel::WaitChild),
        },
        ClipboardStage::AwaitExit => match r {
            ReplyModel::Exited { success, status } => if success {
                (ClipboardModel { stage: ClipboardStage::Over, ..s }, succeeds())
            } else {
                try_next(s, s.failures.push("`"@ + p + "` exited with "@ + status))
            },
            ReplyModel::Failed(e) => try_next(s, s.failures.push("wait for `"@ + p + "`: "@ + e)),
            _ => (s, fails_with(seq![])),
        },
        ClipboardStage::Over => (s, fails_with(seq![])),
    }
}

fn program_of(i: usize) -> (p: &'static str)
    requires
        i < 4,
    ensures
        p@ == backend_program(i as nat),
{
    if i == 0 {
        "wl-copy"
    } else if i == 1 {
        "pbcopy"
    } else if i == 2 {
        "xclip"
    } else {
        "xsel"
    }
}

fn args_of(i: usize) -> (a: Vec<String>)
    requires
        i < 4,
    ensures
        views(a@) == backend_args(i as nat),
{
    let mut a: Vec<String> = Vec::new();
    if i == 2 {
        a.push(String::from_str("-selection"));
        a.push(String::from_str("clipboard"));
    } else if i == 3 {
        a.push(String::from_str("--clipboard"));
        a.push(String::from_str("--input"));
    }
    proof {
        if i == 2 {
            assert(views(a@) =~= seq!["-selection"@, "clipboard"@]);
        } else if i == 3 {
            assert(views(a@) =~= seq!["--clipboard"@, "--input"@]);
        } else {
            assert(views(a@) =~= seq![]);
        }
    }
    a
}

fn spawn(i: usize) -> (q: Request)
    requires
        i < 4,
    ensures
        q@ == spawn_request(i as nat),
{
    Request::Spawn { program: program_of(i).to_owned(), args: args_of(i) }
}

/// Starts copying `text`.
pub fn copy_to_clipboard(text: &str) -> (res: (ClipboardFlow, Request))
    ensures
        (res.0@, res.1@) == clipboard_begin(text@),
        res.0@.wf(),
        clipboard_waiting(res.0@) == waiting_for(res.1@),
{
    let flow = ClipboardFlow {
        stage: ClipboardStage::AwaitSpawn,
        text: text.to_owned(),
        backend: 0,
        failures: Vec::new(),
    };
    proof {
        assert(views(flow.failures@) =~= seq![]);
    }
    (flow, spawn(0))
}

impl ClipboardFlow {
    fn advance(&mut self) -> (q: Request)
        requires
            old(self)@.wf(),
            old(self)@.stage != ClipboardStage::Over,
        ensures
            (final(self)@, q@) == try_next(old(self)@, old(self)@.failures),
            final(self)@.wf(),
            clipboard_waiting(final(self)@) == waiting_for(q@),
    {
        if self.backend + 1 < 4 {
            self.backend = self.backend + 1;
            self.stage = ClipboardStage::AwaitSpawn;
            spawn(self.backend)
        } else {
            self.stage = ClipboardStage::Over;
            let m = if self.failures.len() == 0 {
                String::from_str("could not copy path: install `wl-copy`, `pbcopy`, `xclip`, or `xsel`")
            } else {
                let mut m = String::from_str(
                    "could not copy path; install `wl-copy`, `pbcopy`, `xclip`, or `xsel`: ",
                );
                let joined = join_strings(&self.failures, "; ");
                m.append(joined.as_str());
                m
            };
            finish(Err(m))
        }
    }

    fn fail_and_advance(&mut self, failure: String) -> (q: Request)
        requires
            old(self)@.wf(),
            old(self)@.stage != ClipboardStage::Over,
        ensures
            (final(self)@, q@) == try_next(old(self)@, old(self)@.failures.push(failure@)),
            final(self)@.wf(),
            clipboard_waiting(final(self)@) == waiting_for(q@),
    {
        let ghost before = self.failures@;
        self.failures.push(failure);
        proof {
            assert(views(self.failures@) =~= views(before).push(failure@));
        }
        self.advance()
    }

    /// Takes the reply to the last request and names the next one.
    pub fn step(&mut self, reply: Reply) -> (q: Request)
        requires
            old(self)@.wf(),
            fits(clipboard_waiting(old(self)@), reply@),
        ensures
            (final(self)@, q@) == clipboard_next(old(self)@, reply@),
            final(self)@.wf(),
            clipboard_waiting(final(self)@) == waiting_for(q@),
    {
        match self.stage {
            ClipboardStage::AwaitSpawn => match reply {
                Reply::Failed(_) => self.advance(),
                _ => {
                    self.stage = ClipboardStage::AwaitFeed;
                    Request::FeedInput { text: self.text.clone() }
                },
            },
            ClipboardStage::AwaitFeed => {
                let p = program_of(self.backend);
                match reply {
                    Reply::Missing => {
                        let mut f = String::from_str("`");
                        f.append(p);
                        f.append("` did not accept input");
                        self.fail_and_advance(f)
                    },
                    Reply::Failed(e) => {
                        let mut f = String::from_str("write to `");
                        f.append(p);
                        f.append("`: ");
                        f.append(e.as_str());
                        self.fail_and_advance(f)
                    },
                    _ => {
                        self.stage = ClipboardStage::AwaitExit;
                        Request::WaitChild
                    },
                }
            },
            ClipboardStage::AwaitExit => {
                let p = program_of(self.backend);
                match reply {
                    Reply::Exited { success, status } => if success {
                        self.stage = ClipboardStage::Over;
                        finish(Ok(()))
                    } else {
                        let mut f = String::from_str("`");
                        f.append(p);
                        f.append("` exited with ");
                        f.append(status.as_str());
                        self.fail_and_advance(f)
                    },
                    Reply::Failed(e) => {
                        let mut f = String::from_str("wait for `");
                        f.append(p);
                        f.append("`: ");
                        f.append(e.as_str());
                        self.fail_and_advance(f)
                    },
                    _ => finish(Err(String::new())),
                }
            },
            ClipboardStage::Over => finish(Err(String::new())),
        }
    }
}

} // verus!

verus! {

pub open spec fn clipboard_idle() -> ClipboardModel {
    ClipboardModel { stage: ClipboardStage::Over, text: seq![], backend: 0, failures: seq![] }
}

impl ClipboardFlow {
    /// A copy that has not started or is over.
    pub fn idle() -> (f: ClipboardFlow)
        ensures
            f@ == clipboard_idle(),
    {
        let f = ClipboardFlow {
            stage: ClipboardStage::Over,
            text: String::new(),
            backend: 0,
            failures: Vec::new(),
        };
        proof {
            assert(views(f.failures@) =~= seq![]);
        }
        f
    }
}

} // verus!

verus! {

impl ClipboardFlow {
    /// The kind of reply the copy waits for.
    pub fn waiting(&self) -> (w: Waiting)
        ensures
            w == clipboard_waiting(self@),
    {
        match self.stage {
            ClipboardStage::AwaitSpawn => Waiting::Outcome,
            ClipboardStage::AwaitFeed => Waiting::Feed,
            ClipboardStage::AwaitExit => Waiting::Exit,
            ClipboardStage::Over => Waiting::Over,
        }
    }
}

} // verus!

verus! {

/// The helpers are tried one after the other, in order: a step starts a
/// helper only as the next one after the current, and only after the current
/// one failed; a helper that exits with success ends the copy with success.
pub proof fn lemma_helpers_in_order(s: ClipboardModel, r: ReplyModel)
    requires
        s.wf(),
        fits(clipboard_waiting(s), r),
    ensures
        clipboard_next(s, r).1 is Spawn ==> clipboard_next(s, r).0.backend == s.backend + 1
            && clipboard_next(s, r).1 == spawn_request(s.backend + 1),
        (s.stage == ClipboardStage::AwaitExit && r matches ReplyModel::Exited { success: true, .. })
            ==> clipboard_next(s, r).1 == succeeds(),
        clipboard_next(s, r).1 == succeeds() ==> (s.stage == ClipboardStage::AwaitExit
            && r matches ReplyModel::Exited { success: true, .. }),
{
}

} // verus!
