//! The block that keeps `.worktrees/` out of Git, in `<common dir>/info/exclude`.
use vstd::prelude::*;

use crate::flow::{
    fails_with, finish, fits, git_reply, git_request, in_context, read_git, succeeds, waiting_for,
    with_context, Reply, ReplyModel, Request, RequestModel, Waiting,
};
use crate::paths::{join, join_path};
use crate::text::{contains, contains_seq, views};

verus! {

/// The line that marks the block.
pub open spec fn marker() -> Seq<char> {
    "# begin acta"@
}

/// The block, without its final line break.
pub open spec fn block() -> Seq<char> {
    "# begin acta\n/.worktrees/\n# end acta"@
}

/// The Git directory shared by all worktrees: what `git rev-parse
/// --git-common-dir` printed, taken relative to the checkout at `root`
/// unless it is absolute.
pub open spec fn common_dir(root: Seq<char>, common: Seq<char>) -> Seq<char> {
    if common.len() > 0 && common[0] == '/' {
        common
    } else {
        join_path(root, common)
    }
}

/// The exclude file of the repository.
pub open spec fn exclude_file(root: Seq<char>, common: Seq<char>) -> Seq<char> {
    join_path(info_dir(root, common), "exclude"@)
}

/// The `info` directory under the common Git directory.
pub open spec fn info_dir(root: Seq<char>, common: Seq<char>) -> Seq<char> {
    join_path(common_dir(root, common), "info"@)
}

pub fn info_dir_of(root: &str, common: &str) -> (r: String)
    ensures
        r@ == info_dir(root@, common@),
{
    let absolute = common.unicode_len() > 0 && common.get_char(0) == '/';
    let c = if absolute {
        common.to_owned()
    } else {
        join(root, common)
    };
    join(c.as_str(), "info")
}

pub fn exclude_file_of(root: &str, common: &str) -> (r: String)
    ensures
        r@ == exclude_file(root@, common@),
{
    let info = info_dir_of(root, common);
    join(info.as_str(), "exclude")
}

/// The block is already in the file.
pub fn has_block(existing: &str) -> (b: bool)
    ensures
        b == contains_seq(existing@, marker()),
{
    contains(existing, "# begin acta")
}

/// A line break must come first: the file has text that does not end its
/// last line.
pub open spec fn needs_line_break(existing: Seq<char>) -> bool {
    existing.len() > 0 && existing.last() != '\n'
}

pub fn ends_open_line(existing: &str) -> (b: bool)
    ensures
        b == needs_line_break(existing@),
{
    let n = existing.unicode_len();
    n > 0 && existing.get_char(n - 1) != '\n'
}

/// The file after the block is added: unchanged when the marker is already
/// there, else the block on lines of its own at the end.
pub open spec fn with_block(existing: Seq<char>) -> Seq<char> {
    if contains_seq(existing, marker()) {
        existing
    } else if needs_line_break(existing) {
        existing + "\n"@ + block() + "\n"@
    } else {
        existing + block() + "\n"@
    }
}

/// Adding the block keeps what the file held, and adding it a second time
/// changes nothing: the exclusion block is idempotent.
pub proof fn lemma_block_idempotent(existing: Seq<char>)
    ensures
        existing.is_prefix_of(with_block(existing)),
        contains_seq(with_block(existing), marker()),
        with_block(with_block(existing)) == with_block(existing),
{
    reveal_strlit("# begin acta");
    reveal_strlit("# begin acta\n/.worktrees/\n# end acta");
    reveal_strlit("\n");
    let w = with_block(existing);
    if !contains_seq(existing, marker()) {
        let start: int = if needs_line_break(existing) { existing.len() + 1int } else { existing.len() as int };
        assert(w.subrange(start, start + marker().len()) =~= marker());
        assert(contains_seq(w, marker()));
    }
}

} // verus!

verus! {

/// Where the run that adds the exclusion block stands.
#[derive(Debug, Clone, Copy, PartialEq, Eq)]
pub enum ExcludeStage {
    AwaitCommonDir,
    AwaitInfoDir,
    AwaitContent,
    AwaitOpen,
    AwaitLineBreak,
    AwaitBlock,
    Over,
}

/// The run that adds the exclusion block to the exclude file of the
/// repository checked out at `root`.
pub struct ExcludeFlow {
    pub stage: ExcludeStage,
    pub root: String,
    pub info: String,
    pub file: String,
    pub existing: String,
}

pub struct ExcludeModel {
    pub stage: ExcludeStage,
    pub root: Seq<char>,
    pub info: Seq<char>,
    pub file: Seq<char>,
    pub existing: Seq<char>,
}

impl View for ExcludeFlow {
    type V = ExcludeModel;

    open spec fn view(&self) -> ExcludeModel {
        ExcludeModel {
            stage: self.stage,
            root: self.root@,
            info: self.info@,
            file: self.file@,
            existing: self.existing@,
        }
    }
}

pub open spec fn common_dir_args() -> Seq<Seq<char>> {
    seq!["--git-common-dir"@]
}

/// The reply the run waits for.
pub open spec fn exclude_waiting(s: ExcludeModel) -> Waiting {
    match s.stage {
        ExcludeStage::AwaitCommonDir => Waiting::GitRun,
        ExcludeStage::AwaitInfoDir => Waiting::Outcome,
        ExcludeStage::AwaitContent => Waiting::Content,
        ExcludeStage::AwaitOpen => Waiting::Outcome,
        ExcludeStage::AwaitLineBreak => Waiting::Outcome,
        ExcludeStage::AwaitBlock => Waiting::Outcome,
        ExcludeStage::Over => Waiting::Over,
    }
}

/// The start: ask `git` for the common Git directory.
pub open spec fn exclude_begin(root: Seq<char>) -> (ExcludeModel, RequestModel) {
    (
        ExcludeModel { stage: ExcludeStage::AwaitCommonDir, root, info: seq![], file: seq![], existing: seq![] },
        RequestModel::Git { command: "rev-parse"@, args: common_dir_args() },
    )
}

/// One step of the run: the state after reply `r`, and the next request.
pub open spec fn exclude_next(s: ExcludeModel, r: ReplyModel) -> (ExcludeModel, RequestModel) {
    let over = ExcludeModel { stage: ExcludeStage::Over, ..s };
    match s.stage {
        ExcludeStage::AwaitCommonDir => match git_reply("rev-parse"@, common_dir_args(), r) {
            Err(m) => (over, fails_with(m)),
            Ok(c) => {
                let info = info_dir(s.root, c);
                (
                    ExcludeModel { stage: ExcludeStage::AwaitInfoDir, info, ..s },
                    RequestModel::CreateDirAll { path: info },
                )
            },
        },
        ExcludeStage::AwaitInfoDir => match r {
            ReplyModel::Failed(e) => (over, fails_with(in_context("create Git info directory"@, e))),
            _ => {
                let file = join_path(s.info, "exclude"@);
                (
                    ExcludeModel { stage: ExcludeStage::AwaitContent, file, ..s },
                    RequestModel::ReadToString { path: file },
                )
            },
        },
        ExcludeStage::AwaitContent => {
            let existing = match r {
                ReplyModel::Text(t) => t,
                _ => seq![],
            };
            if contains_seq(existing, marker()) {
                (ExcludeModel { existing, ..over }, succeeds())
            } else {
                (
                    ExcludeModel { stage: ExcludeStage::AwaitOpen, existing, ..s },
                    RequestModel::OpenAppend { path: s.file },
                )
            }
        },
        ExcludeStage::AwaitOpen => match r {
            ReplyModel::Failed(e) => (over, fails_with(in_context("open Git exclude file"@, e))),
            _ => if needs_line_break(s.existing) {
                (
                    ExcludeModel { stage: ExcludeStage::AwaitLineBreak, ..s },
                    RequestModel::WriteOpen { text: "\n"@ },
                )
            } else {
                (
                    ExcludeModel { stage: ExcludeStage::AwaitBlock, ..s },
                    RequestModel::WriteOpen { text: block() + "\n"@ },
                )
            },
        },
        ExcludeStage::AwaitLineBreak => match r {
            ReplyModel::Failed(e) => (over, fails_with(e)),
            _ => (
                ExcludeModel { stage: ExcludeStage::AwaitBlock, ..s },
                RequestModel::WriteOpen { text: block() + "\n"@ },
            ),
        },
        ExcludeStage::AwaitBlock => match r {
            ReplyModel::Failed(e) => (over, fails_with(in_context("write Git exclude file"@, e))),
            _ => (over, succeeds()),
        },
        ExcludeStage::Over => (s, fails_with(seq![])),
    }
}

/// Starts adding the exclusion block for the checkout at `root`.
pub fn add_exclude(root: &str) -> (res: (ExcludeFlow, Request))
    ensures
        (res.0@, res.1@) == exclude_begin(root@),
        exclude_waiting(res.0@) == waiting_for(res.1@),
{
    let mut args: Vec<String> = Vec::new();
    args.push(String::from_str("--git-common-dir"));
    let flow = ExcludeFlow {
        stage: ExcludeStage::AwaitCommonDir,
        root: root.to_owned(),
        info: String::new(),
        file: String::new(),
        existing: String::new(),
    };
    proof {
        assert(views(args@) =~= common_dir_args());
    }
    (flow, git_request("rev-parse", args))
}

impl ExcludeFlow {
    /// Takes the reply to the last request and names the next one.
    pub fn step(&mut self, reply: Reply) -> (q: Request)
        requires
            fits(exclude_waiting(old(self)@), reply@),
        ensures
            (final(self)@, q@) == exclude_next(old(self)@, reply@),
            exclude_waiting(final(self)@) == waiting_for(q@),
    {
        match self.stage {
            ExcludeStage::AwaitCommonDir => {
                let mut args: Vec<String> = Vec::new();
                args.push(String::from_str("--git-common-dir"));
                proof {
                    assert(views(args@) =~= common_dir_args());
                }
                match read_git("rev-parse", &args, &reply) {
                    Err(m) => {
                        self.stage = ExcludeStage::Over;
                        finish(Err(m))
                    },
                    Ok(c) => {
                        let info = info_dir_of(self.root.as_str(), c.as_str());
                        self.stage = ExcludeStage::AwaitInfoDir;
                        self.info = info.clone();
                        Request::CreateDirAll { path: info }
                    },
                }
            },
            ExcludeStage::AwaitInfoDir => match reply {
                Reply::Failed(e) => {
                    self.stage = ExcludeStage::Over;
                    finish(Err(with_context("create Git info directory", e.as_str())))
                },
                _ => {
                    let file = join(self.info.as_str(), "exclude");
                    self.stage = ExcludeStage::AwaitContent;
                    self.file = file.clone();
                    Request::ReadToString { path: file }
                },
            },
            ExcludeStage::AwaitContent => {
                let existing = match reply {
                    Reply::Text(t) => t,
                    _ => String::new(),
                };
                if has_block(existing.as_str()) {
                    self.stage = ExcludeStage::Over;
                    self.existing = existing;
                    finish(Ok(()))
                } else {
                    self.stage = ExcludeStage::AwaitOpen;
                    self.existing = existing;
                    Request::OpenAppend { path: self.file.clone() }
                }
            },
            ExcludeStage::AwaitOpen => match reply {
                Reply::Failed(e) => {
                    self.stage = ExcludeStage::Over;
                    finish(Err(with_context("open Git exclude file", e.as_str())))
                },
                _ => if ends_open_line(self.existing.as_str()) {
                    self.stage = ExcludeStage::AwaitLineBreak;
                    Request::WriteOpen { text: String::from_str("\n") }
                } else {
                    self.stage = ExcludeStage::AwaitBlock;
                    Request::WriteOpen { text: block_line() }
                },
            },
            ExcludeStage::AwaitLineBreak => match reply {
                Reply::Failed(e) => {
                    self.stage = ExcludeStage::Over;
                    finish(Err(e))
                },
                _ => {
                    self.stage = ExcludeStage::AwaitBlock;
                    Request::WriteOpen { text: block_line() }
                },
            },
            ExcludeStage::AwaitBlock => match reply {
                Reply::Failed(e) => {
                    self.stage = ExcludeStage::Over;
                    finish(Err(with_context("write Git exclude file", e.as_str())))
                },
                _ => {
                    self.stage = ExcludeStage::Over;
                    finish(Ok(()))
                },
            },
            ExcludeStage::Over => finish(Err(String::new())),
        }
    }
}

/// The block and its line break, as one write.
fn block_line() -> (s: String)
    ensures
        s@ == block() + "\n"@,
{
    let mut s = String::from_str("# begin acta\n/.worktrees/\n# end acta");
    s.append("\n");
    s
}

} // verus!

verus! {

/// A run that reads `existing` from the exclude file and whose writes all
/// succeed leaves the file as `with_block(existing)`: it finishes at once
/// when the block is there, and otherwise opens the file and appends exactly
/// what `with_block` adds, then finishes with success.
pub proof fn lemma_exclude_run_appends_block(s: ExcludeModel, existing: Seq<char>)
    requires
        s.stage == ExcludeStage::AwaitContent,
    ensures
        ({
            let (s1, q1) = exclude_next(s, ReplyModel::Text(existing));
            if contains_seq(existing, marker()) {
                &&& q1 == succeeds()
                &&& with_block(existing) == existing
            } else {
                let (s2, q2) = exclude_next(s1, ReplyModel::Done);
                &&& q1 == (RequestModel::OpenAppend { path: s.file })
                &&& q2 matches RequestModel::WriteOpen { text: t2 }
                &&& if needs_line_break(existing) {
                    let (s3, q3) = exclude_next(s2, ReplyModel::Done);
                    &&& q3 matches RequestModel::WriteOpen { text: t3 }
                    &&& existing + t2 + t3 == with_block(existing)
                    &&& exclude_next(s3, ReplyModel::Done).1 == succeeds()
                } else {
                    &&& existing + t2 == with_block(existing)
                    &&& exclude_next(s2, ReplyModel::Done).1 == succeeds()
                }
            }
        }),
{
    let (s1, q1) = exclude_next(s, ReplyModel::Text(existing));
    if !contains_seq(existing, marker()) {
        let (s2, q2) = exclude_next(s1, ReplyModel::Done);
        if needs_line_break(existing) {
            let (s3, q3) = exclude_next(s2, ReplyModel::Done);
            let t2 = q2->WriteOpen_text;
            let t3 = q3->WriteOpen_text;
            assert(existing + t2 + t3 =~= existing + "\n"@ + block() + "\n"@);
        }
    }
}

} // verus!

verus! {

/// A run that has not started or is over.
pub open spec fn exclude_idle() -> ExcludeModel {
    ExcludeModel { stage: ExcludeStage::Over, root: seq![], info: seq![], file: seq![], existing: seq![] }
}

impl ExcludeFlow {
    pub fn idle() -> (f: ExcludeFlow)
        ensures
            f@ == exclude_idle(),
    {
        ExcludeFlow {
            stage: ExcludeStage::Over,
            root: String::new(),
            info: String::new(),
            file: String::new(),
            existing: String::new(),
        }
    }
}

} // verus!

verus! {

impl ExcludeFlow {
    /// The kind of reply the run waits for.
    pub fn waiting(&self) -> (w: Waiting)
        ensures
            w == exclude_waiting(self@),
    {
        match self.stage {
            ExcludeStage::AwaitCommonDir => Waiting::GitRun,
            ExcludeStage::AwaitInfoDir => Waiting::Outcome,
            ExcludeStage::AwaitContent => Waiting::Content,
            ExcludeStage::AwaitOpen => Waiting::Outcome,
            ExcludeStage::AwaitLineBreak => Waiting::Outcome,
            ExcludeStage::AwaitBlock => Waiting::Outcome,
            ExcludeStage::Over => Waiting::Over,
        }
    }
}

} // verus!
