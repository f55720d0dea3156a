//! The requests that a command makes of the world outside the library, and
//! the replies it gets. A command is a state machine: given the reply to its
//! last request it moves on and names the next request, until it asks to
//! finish with a result.
use vstd::prelude::*;

use crate::git::{git, git_result, GitOutput};
use crate::text::views;

verus! {

/// The embedded Markdown templates that a command writes.
#[derive(Debug, Clone, Copy, PartialEq, Eq)]
pub enum Template {
    Idea,
    Plan,
    Tasks,
    Clarification,
    GenericDev,
    Ponytail,
    WiseDev,
    /// The convention template at this position among the bundled ones.
    Convention(usize),
}

/// What a command asks to be done next.
pub enum Request {
    /// Run `git command args` and report how it ended.
    Git { command: String, args: Vec<String> },
    /// Report the home directory (`HOME`).
    Home,
    /// Report whether `path` is a regular file.
    IsFile { path: String },
    /// Report whether `path` is a directory.
    IsDir { path: String },
    /// Report whether anything exists at `path`.
    Exists { path: String },
    /// Create the directory `path` and its missing parents.
    CreateDirAll { path: String },
    /// Report the text of the file at `path`.
    ReadToString { path: String },
    /// Open the file at `path` for appending, creating it when missing.
    OpenAppend { path: String },
    /// Write `text` to the file opened for appending.
    WriteOpen { text: String },
    /// Create the file at `path`, which must not exist yet, with a template.
    WriteNew { path: String, template: Template },
    /// Report the names of the entries of the directory at `path`.
    ReadDirNames { path: String },
    /// Report the file names of the bundled convention templates.
    Conventions,
    /// Let the user pick one of `items`.
    Choose { prompt: String, items: Vec<String> },
    /// Start `program args` with a pipe on its standard input.
    Spawn { program: String, args: Vec<String> },
    /// Write `text` to the standard input of the started program and close it.
    FeedInput { text: String },
    /// Wait for the started program to end.
    WaitChild,
    /// Print `line` on standard output.
    Print { line: String },
    /// The command is over, with this result.
    Finish { result: Result<(), String> },
}

/// What happened when a request was carried out.
pub enum Reply {
    /// A run of `git` ended.
    Git(GitOutput),
    /// The request failed; the text is the error.
    Failed(String),
    /// The answer to a yes-or-no question.
    Flag(bool),
    /// A text that was asked for.
    Text(String),
    /// What was asked for is not there (no `HOME`, no standard input).
    Missing,
    /// The names of the entries of a directory.
    Names(Vec<String>),
    /// The position of the item the user picked.
    Index(usize),
    /// The request was carried out.
    Done,
    /// The started program ended; `status` describes how.
    Exited { success: bool, status: String },
}

/// The model of a request.
pub enum RequestModel {
    Git { command: Seq<char>, args: Seq<Seq<char>> },
    Home,
    IsFile { path: Seq<char> },
    IsDir { path: Seq<char> },
    Exists { path: Seq<char> },
    CreateDirAll { path: Seq<char> },
    ReadToString { path: Seq<char> },
    OpenAppend { path: Seq<char> },
    WriteOpen { text: Seq<char> },
    WriteNew { path: Seq<char>, template: Template },
    ReadDirNames { path: Seq<char> },
    Conventions,
    Choose { prompt: Seq<char>, items: Seq<Seq<char>> },
    Spawn { program: Seq<char>, args: Seq<Seq<char>> },
    FeedInput { text: Seq<char> },
    WaitChild,
    Print { line: Seq<char> },
    Finish { result: Result<(), Seq<char>> },
}

/// The model of a reply.
pub enum ReplyModel {
    Git { success: bool, stdout: Seq<u8>, stderr: Seq<u8> },
    Failed(Seq<char>),
    Flag(bool),
    Text(Seq<char>),
    Missing,
    Names(Seq<Seq<char>>),
    Index(nat),
    Done,
    Exited { success: bool, status: Seq<char> },
}

impl View for Request {
    type V = RequestModel;

    open spec fn view(&self) -> RequestModel {
        match self {
            Request::Git { command, args } => RequestModel::Git { command: command@, args: views(args@) },
            Request::Home => RequestModel::Home,
            Request::IsFile { path } => RequestModel::IsFile { path: path@ },
            Request::IsDir { path } => RequestModel::IsDir { path: path@ },
            Request::Exists { path } => RequestModel::Exists { path: path@ },
            Request::CreateDirAll { path } => RequestModel::CreateDirAll { path: path@ },
            Request::ReadToString { path } => RequestModel::ReadToString { path: path@ },
            Request::OpenAppend { path } => RequestModel::OpenAppend { path: path@ },
            Request::WriteOpen { text } => RequestModel::WriteOpen { text: text@ },
            Request::WriteNew { path, template } => RequestModel::WriteNew { path: path@, template: *template },
            Request::ReadDirNames { path } => RequestModel::ReadDirNames { path: path@ },
            Request::Conventions => RequestModel::Conventions,
            Request::Choose { prompt, items } => RequestModel::Choose { prompt: prompt@, items: views(items@) },
            Request::Spawn { program, args } => RequestModel::Spawn { program: program@, args: views(args@) },
            Request::FeedInput { text } => RequestModel::FeedInput { text: text@ },
            Request::WaitChild => RequestModel::WaitChild,
            Request::Print { line } => RequestModel::Print { line: line@ },
            Request::Finish { result } => RequestModel::Finish {
                result: match result {
                    Ok(()) => Ok(()),
                    Err(m) => Err(m@),
                },
            },
        }
    }
}

impl View for Reply {
    type V = ReplyModel;

    open spec fn view(&self) -> ReplyModel {
        match self {
            Reply::Git(o) => ReplyModel::Git { success: o.success, stdout: o.stdout@, stderr: o.stderr@ },
            Reply::Failed(e) => ReplyModel::Failed(e@),
            Reply::Flag(b) => ReplyModel::Flag(*b),
            Reply::Text(t) => ReplyModel::Text(t@),
            Reply::Missing => ReplyModel::Missing,
            Reply::Names(ns) => ReplyModel::Names(views(ns@)),
            Reply::Index(i) => ReplyModel::Index(*i as nat),
            Reply::Done => ReplyModel::Done,
            Reply::Exited { success, status } => ReplyModel::Exited { success: *success, status: status@ },
        }
    }
}

/// The kind of reply a state machine waits for.
#[derive(Debug, Clone, Copy, PartialEq, Eq)]
pub enum Waiting {
    /// The end of a run of `git`, or the error that kept it from running.
    GitRun,
    /// A yes or a no.
    Flag,
    /// Done, or an error.
    Outcome,
    /// A text, or nothing.
    Lookup,
    /// A text, or an error.
    Content,
    /// Names of entries, or an error.
    Listing,
    /// The position of one of `n` items, or an error.
    Choice(usize),
    /// Done, no standard input, or an error.
    Feed,
    /// The end of a program, or an error.
    Exit,
    /// Nothing more: the machine has finished.
    Over,
}

/// Whether `r` is a reply of the kind `w`.
pub open spec fn fits(w: Waiting, r: ReplyModel) -> bool {
    match w {
        Waiting::GitRun => r is Git || r is Failed,
        Waiting::Flag => r is Flag,
        Waiting::Outcome => r is Done || r is Failed,
        Waiting::Lookup => r is Text || r is Missing,
        Waiting::Content => r is Text || r is Failed,
        Waiting::Listing => r is Names || r is Failed,
        Waiting::Choice(n) => (r matches ReplyModel::Index(i) && i < n) || r is Failed,
        Waiting::Feed => r is Done || r is Missing || r is Failed,
        Waiting::Exit => r is Exited || r is Failed,
        Waiting::Over => false,
    }
}

/// The kind of reply that carrying out `q` gives.
pub open spec fn waiting_for(q: RequestModel) -> Waiting {
    match q {
        RequestModel::Git { .. } => Waiting::GitRun,
        RequestModel::Home => Waiting::Lookup,
        RequestModel::IsFile { .. } => Waiting::Flag,
        RequestModel::IsDir { .. } => Waiting::Flag,
        RequestModel::Exists { .. } => Waiting::Flag,
        RequestModel::CreateDirAll { .. } => Waiting::Outcome,
        RequestModel::ReadToString { .. } => Waiting::Content,
        RequestModel::OpenAppend { .. } => Waiting::Outcome,
        RequestModel::WriteOpen { .. } => Waiting::Outcome,
        RequestModel::WriteNew { .. } => Waiting::Outcome,
        RequestModel::ReadDirNames { .. } => Waiting::Listing,
        RequestModel::Conventions => Waiting::Listing,
        RequestModel::Choose { items, .. } => Waiting::Choice(items.len() as usize),
        RequestModel::Spawn { .. } => Waiting::Outcome,
        RequestModel::FeedInput { .. } => Waiting::Feed,
        RequestModel::WaitChild => Waiting::Exit,
        RequestModel::Print { .. } => Waiting::Outcome,
        RequestModel::Finish { .. } => Waiting::Over,
    }
}

/// Whether `reply` is of the kind `w`.
pub fn reply_fits(w: Waiting, reply: &Reply) -> (b: bool)
    ensures
        b == fits(w, reply@),
{
    match w {
        Waiting::GitRun => matches!(reply, Reply::Git(_)) || matches!(reply, Reply::Failed(_)),
        Waiting::Flag => matches!(reply, Reply::Flag(_)),
        Waiting::Outcome => matches!(reply, Reply::Done) || matches!(reply, Reply::Failed(_)),
        Waiting::Lookup => matches!(reply, Reply::Text(_)) || matches!(reply, Reply::Missing),
        Waiting::Content => matches!(reply, Reply::Text(_)) || matches!(reply, Reply::Failed(_)),
        Waiting::Listing => matches!(reply, Reply::Names(_)) || matches!(reply, Reply::Failed(_)),
        Waiting::Choice(n) => match reply {
            Reply::Index(i) => *i < n,
            Reply::Failed(_) => true,
            _ => false,
        },
        Waiting::Feed => matches!(reply, Reply::Done) || matches!(reply, Reply::Missing)
            || matches!(reply, Reply::Failed(_)),
        Waiting::Exit => matches!(reply, Reply::Exited { .. }) || matches!(reply, Reply::Failed(_)),
        Waiting::Over => false,
    }
}

/// The message when `git` could not be run at all.
pub open spec fn run_error_message(command: Seq<char>, error: Seq<char>) -> Seq<char> {
    "run `git "@ + command + "`: "@ + error
}

/// What the reply to a run of `git command args` gives: its trimmed output,
/// or the error of the run.
pub open spec fn git_reply(command: Seq<char>, args: Seq<Seq<char>>, r: ReplyModel) -> Result<
    Seq<char>,
    Seq<char>,
> {
    match r {
        ReplyModel::Git { success, stdout, stderr } => git_result(command, args, success, stdout, stderr),
        ReplyModel::Failed(e) => Err(run_error_message(command, e)),
        _ => Err(seq![]),
    }
}

/// Reads the reply to a run of `git command args`.
pub fn read_git(command: &str, args: &Vec<String>, reply: &Reply) -> (r: Result<String, String>)
    requires
        fits(Waiting::GitRun, reply@),
    ensures
        match r {
            Ok(s) => git_reply(command@, views(args@), reply@) == Ok::<Seq<char>, Seq<char>>(s@),
            Err(m) => git_reply(command@, views(args@), reply@) == Err::<Seq<char>, Seq<char>>(m@),
        },
{
    match reply {
        Reply::Git(output) => git(command, args, output),
        Reply::Failed(e) => {
            let mut m = String::from_str("run `git ");
            m.append(command);
            m.append("`: ");
            m.append(e.as_str());
            Err(m)
        },
        _ => Err(String::new()),
    }
}

/// A request to run `git` with string arguments.
pub fn git_request(command: &str, args: Vec<String>) -> (q: Request)
    ensures
        q@ == (RequestModel::Git { command: command@, args: views(args@) }),
{
    Request::Git { command: command.to_owned(), args }
}

/// The request to finish with `result`.
pub fn finish(result: Result<(), String>) -> (q: Request)
    ensures
        q@ == (RequestModel::Finish {
            result: match result {
                Ok(()) => Ok(()),
                Err(m) => Err(m@),
            },
        }),
{
    Request::Finish { result }
}

/// The model of finishing with the error `m`.
pub open spec fn fails_with(m: Seq<char>) -> RequestModel {
    RequestModel::Finish { result: Err(m) }
}

/// The model of finishing with success.
pub open spec fn succeeds() -> RequestModel {
    RequestModel::Finish { result: Ok(()) }
}

/// An error prefixed by what was being done: `context: error`.
pub open spec fn in_context(context: Seq<char>, error: Seq<char>) -> Seq<char> {
    context + ": "@ + error
}

pub fn with_context(context: &str, error: &str) -> (m: String)
    ensures
        m@ == in_context(context@, error@),
{
    let mut m = context.to_owned();
    m.append(": ");
    m.append(error);
    m
}

/// The message when a file could not be created with its template.
pub open spec fn write_error_message(path: Seq<char>, error: Seq<char>) -> Seq<char> {
    "write `"@ + path + "`: "@ + error
}

pub fn write_error(path: &str, error: &str) -> (m: String)
    ensures
        m@ == write_error_message(path@, error@),
{
    let mut m = String::from_str("write `");
    m.append(path);
    m.append("`: ");
    m.append(error);
    m
}

pub fn strings1(a: &str) -> (v: Vec<String>)
    ensures
        views(v@) == seq![a@],
{
    let mut v: Vec<String> = Vec::new();
    v.push(a.to_owned());
    proof {
        assert(views(v@) =~= seq![a@]);
    }
    v
}

pub fn strings2(a: &str, b: &str) -> (v: Vec<String>)
    ensures
        views(v@) == seq![a@, b@],
{
    let mut v: Vec<String> = Vec::new();
    v.push(a.to_owned());
    v.push(b.to_owned());
    proof {
        assert(views(v@) =~= seq![a@, b@]);
    }
    v
}

pub fn strings3(a: &str, b: &str, c: &str) -> (v: Vec<String>)
    ensures
        views(v@) == seq![a@, b@, c@],
{
    let mut v: Vec<String> = Vec::new();
    v.push(a.to_owned());
    v.push(b.to_owned());
    v.push(c.to_owned());
    proof {
        assert(views(v@) =~= seq![a@, b@, c@]);
    }
    v
}

pub fn concat2(a: &str, b: &str) -> (s: String)
    ensures
        s@ == a@ + b@,
{
    let mut s = a.to_owned();
    s.append(b);
    s
}

pub fn print_request(prefix: &str, value: &str) -> (q: Request)
    ensures
        q@ == (RequestModel::Print { line: prefix@ + value@ }),
{
    Request::Print { line: concat2(prefix, value) }
}

} // verus!
