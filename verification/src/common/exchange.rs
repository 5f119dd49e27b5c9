//! The exchange with the host: what the reconciler asks to have done, and
//! what it is told came of it. The reconciler itself touches neither the
//! file system nor other programs; the host performs each request and hands
//! back the reply.

use crate::common::error::{SetupError, SetupErrorView, SetupResult};
use crate::common::logging::{GroupView, LogLineView};
use crate::configurators::zshrc::line_texts;
use vstd::prelude::*;

verus! {

/// An external program and its arguments.
#[derive(Debug, Clone, PartialEq, Eq)]
pub struct Command {
    pub program: String,
    pub args: Vec<String>,
}

/// What a command says.
pub struct CommandView {
    pub program: Seq<char>,
    pub args: Seq<Seq<char>>,
}

impl View for Command {
    type V = CommandView;

    open spec fn view(&self) -> CommandView {
        CommandView { program: self.program@, args: line_texts(self.args@) }
    }
}

/// What the reconciler asks of the host. A path that starts with `~/` is
/// meant under the user's home directory.
#[derive(Debug, Clone, PartialEq, Eq)]
pub enum Request {
    /// Run the command and capture what it prints.
    Run(Command),
    /// Tell whether anything exists at the path.
    PathExists(String),
    /// Read the file at the path as text.
    ReadFile(String),
    /// Replace the content of the file at the path.
    WriteFile { path: String, content: String },
}

/// What a request says.
pub enum RequestView {
    Run(CommandView),
    PathExists(Seq<char>),
    ReadFile(Seq<char>),
    WriteFile { path: Seq<char>, content: Seq<char> },
}

impl View for Request {
    type V = RequestView;

    open spec fn view(&self) -> RequestView {
        match self {
            Request::Run(c) => RequestView::Run(c@),
            Request::PathExists(p) => RequestView::PathExists(p@),
            Request::ReadFile(p) => RequestView::ReadFile(p@),
            Request::WriteFile { path, content } => RequestView::WriteFile {
                path: path@,
                content: content@,
            },
        }
    }
}

/// What the host tells of a request.
#[derive(Debug, Clone, PartialEq, Eq)]
pub enum Reply {
    /// The command ran and exited with success; what it printed.
    Succeeded(String),
    /// The command ran and did not exit with success.
    Failed { exit_code: Option<i32>, stderr: String },
    /// Whether anything exists at the path.
    Exists(bool),
    /// The text of the file.
    Content(String),
    /// The file was written.
    Written,
    /// The command could not be started, or the file not be read or written.
    IoFailure(String),
}

/// What a reply says.
pub enum ReplyView {
    Succeeded(Seq<char>),
    Failed { exit_code: Option<i32>, stderr: Seq<char> },
    Exists(bool),
    Content(Seq<char>),
    Written,
    IoFailure(Seq<char>),
}

impl View for Reply {
    type V = ReplyView;

    open spec fn view(&self) -> ReplyView {
        match self {
            Reply::Succeeded(out) => ReplyView::Succeeded(out@),
            Reply::Failed { exit_code, stderr } => ReplyView::Failed {
                exit_code: *exit_code,
                stderr: stderr@,
            },
            Reply::Exists(b) => ReplyView::Exists(*b),
            Reply::Content(text) => ReplyView::Content(text@),
            Reply::Written => ReplyView::Written,
            Reply::IoFailure(msg) => ReplyView::IoFailure(msg@),
        }
    }
}

/// What a phase hands back: the next request, or how it ended.
#[derive(Debug, PartialEq, Eq)]
pub enum Step {
    Ask(Request),
    Done(SetupResult<()>),
}

/// What a step says.
pub enum StepView {
    Ask(RequestView),
    Done(Result<(), SetupErrorView>),
}

impl View for Step {
    type V = StepView;

    open spec fn view(&self) -> StepView {
        match self {
            Step::Ask(r) => StepView::Ask(r@),
            Step::Done(Ok(_)) => StepView::Done(Ok(())),
            Step::Done(Err(e)) => StepView::Done(Err(e@)),
        }
    }
}

/// What one turn of a phase comes to: the state it leaves the phase in, the
/// lines and the groups it adds to the report, and the step it hands back.
pub struct Outcome<S> {
    pub state: S,
    pub lines: Seq<LogLineView>,
    pub groups: Seq<GroupView>,
    pub step: StepView,
}

/// The message of the failure that stands for a reply of the wrong kind.
pub open spec fn stray_reply_text() -> Seq<char> {
    "the reply does not answer the request"@
}

/// What a reply means for the command it is meant to answer: the output of
/// a success, a command failure for an unsuccessful exit, an I/O failure
/// otherwise.
pub open spec fn command_outcome(reply: ReplyView, command: Seq<char>) -> Result<
    Seq<char>,
    SetupErrorView,
> {
    match reply {
        ReplyView::Succeeded(out) => Ok(out),
        ReplyView::Failed { exit_code, stderr } => Err(
            SetupErrorView::CommandFailed { command, exit_code },
        ),
        ReplyView::IoFailure(msg) => Err(SetupErrorView::IoError(msg)),
        _ => Err(SetupErrorView::IoError(stray_reply_text())),
    }
}

/// What a result with a text says.
pub open spec fn text_outcome(r: Result<String, SetupError>) -> Result<Seq<char>, SetupErrorView> {
    match r {
        Ok(s) => Ok(s@),
        Err(e) => Err(e@),
    }
}

impl Reply {
    /// What this reply means for the command `command` that it is meant to
    /// answer.
    pub fn command_result(&self, command: &str) -> (r: Result<String, SetupError>)
        ensures
            text_outcome(r) == command_outcome(self@, command@),
    {
        match self {
            Reply::Succeeded(out) => Ok(out.clone()),
            Reply::Failed { exit_code, stderr } => Err(
                SetupError::CommandFailed { command: command.to_owned(), exit_code: *exit_code },
            ),
            Reply::IoFailure(msg) => Err(SetupError::IoError(msg.clone())),
            _ => Err(SetupError::IoError("the reply does not answer the request".to_owned())),
        }
    }

    /// Whether this reply tells of a command that exited with success.
    pub fn is_success(&self) -> (b: bool)
        ensures
            b == (self@ is Succeeded),
    {
        match self {
            Reply::Succeeded(_) => true,
            _ => false,
        }
    }

    /// Whether this reply tells that the path exists. A probe that failed
    /// counts as absence.
    pub fn is_present(&self) -> (b: bool)
        ensures
            b == (self@ == ReplyView::Exists(true)),
    {
        match self {
            Reply::Exists(b) => *b,
            _ => false,
        }
    }
}

/// The command with the given program and arguments.
pub fn command_of(program: &str, args: Vec<String>) -> (c: Command)
    ensures
        c@ == (CommandView { program: program@, args: line_texts(args@) }),
{
    Command { program: program.to_owned(), args }
}

} // verus!
