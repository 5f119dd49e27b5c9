//! How a symlink is created: by one shell command.

use crate::common::error::{outcome_view, SetupErrorView, SetupResult};
use crate::common::exchange::{
    command_of, command_outcome, CommandView, Reply, ReplyView, Request, RequestView,
};
use crate::configurators::zshrc::line_texts;
use crate::symlinks::{SymlinkConfig, SymlinkConfigView};
use crate::text::{chars_of, string_of};
use vstd::prelude::*;
use vstd::string::StringExecFns;

verus! {

/// `s` with a backslash before every space.
pub open spec fn escape_spaces(s: Seq<char>) -> Seq<char>
    decreases s.len(),
{
    if s.len() == 0 {
        Seq::empty()
    } else if s.last() == ' ' {
        escape_spaces(s.drop_last()) + seq!['\\', ' ']
    } else {
        escape_spaces(s.drop_last()).push(s.last())
    }
}

/// `s` with a backslash before every space.
pub fn escaped(s: &str) -> (out: String)
    ensures
        out@ == escape_spaces(s@),
{
    let chars = chars_of(s);
    let mut out: Vec<char> = Vec::new();
    let mut i: usize = 0;
    assert(chars@.take(0) =~= Seq::<char>::empty());
    while i < chars.len()
        invariant
            i <= chars.len(),
            out@ == escape_spaces(chars@.take(i as int)),
        decreases chars.len() - i,
    {
        proof {
            assert(chars@.take(i + 1).drop_last() =~= chars@.take(i as int));
        }
        let ghost before = out@;
        if chars[i] == ' ' {
            out.push('\\');
            out.push(' ');
            assert(out@ =~= before + seq!['\\', ' ']);
        } else {
            out.push(chars[i]);
        }
        i += 1;
    }
    assert(chars@.take(chars@.len() as int) =~= chars@);
    string_of(&out)
}

/// The shell command that makes sure the destination's directory exists and
/// then force-creates the link, replacing whatever stands at the destination.
pub open spec fn link_command(config: SymlinkConfigView) -> Seq<char> {
    "mkdir -p $(dirname "@ + escape_spaces(config.destination) + ") && ln -fsv "@ + config.source
        + " "@ + escape_spaces(config.destination)
}

/// How symlinks are created: which request creates one, and what the host's
/// reply to it means.
pub trait SymlinkCreator {
    /// The request that creates the link.
    spec fn request_spec(&self, config: SymlinkConfigView) -> RequestView;

    /// What `reply`, given to that request, means.
    spec fn outcome_spec(&self, config: SymlinkConfigView, reply: ReplyView) -> Result<
        (),
        SetupErrorView,
    >;

    /// The request that creates the link.
    fn request(&self, config: &SymlinkConfig) -> (request: Request)
        ensures
            request@ == self.request_spec(config@),
    ;

    /// The outcome of creating the link, given the host's reply to the
    /// request.
    fn create(&self, config: &SymlinkConfig, reply: &Reply) -> (outcome: SetupResult<()>)
        ensures
            outcome_view(outcome) == self.outcome_spec(config@, reply@),
    ;
}

/// Creates symlinks with one shell command each.
pub struct ShellSymlinkCreator;

impl ShellSymlinkCreator {
    /// The text of the shell command that creates the link.
    pub fn command(&self, config: &SymlinkConfig) -> (text: String)
        ensures
            text@ == link_command(config@),
    {
        let dest = escaped(config.destination.as_str());
        "mkdir -p $(dirname ".to_owned().concat(dest.as_str()).concat(") && ln -fsv ").concat(
            config.source.as_str(),
        ).concat(" ").concat(dest.as_str())
    }
}

/// What is printed of a reply to a link command: what the command wrote, if
/// it succeeded and wrote anything.
pub open spec fn link_output(reply: ReplyView) -> Seq<Seq<char>> {
    match reply {
        ReplyView::Succeeded(out) => if out.len() > 0 {
            seq![out]
        } else {
            Seq::empty()
        },
        _ => Seq::empty(),
    }
}

impl ShellSymlinkCreator {
    /// What the host prints of its reply to a link command, beside the
    /// report: what the command wrote, if it succeeded and wrote anything.
    pub fn printed(&self, reply: &Reply) -> (chunks: Vec<String>)
        ensures
            line_texts(chunks@) == link_output(reply@),
    {
        let mut chunks: Vec<String> = Vec::new();
        match reply {
            Reply::Succeeded(out) => {
                if chars_of(out.as_str()).len() > 0 {
                    chunks.push(out.clone());
                }
            },
            _ => {},
        }
        assert(line_texts(chunks@) =~= link_output(reply@));
        chunks
    }
}

impl SymlinkCreator for ShellSymlinkCreator {
    open spec fn request_spec(&self, config: SymlinkConfigView) -> RequestView {
        RequestView::Run(CommandView { program: "sh"@, args: seq!["-c"@, link_command(config)] })
    }

    open spec fn outcome_spec(&self, config: SymlinkConfigView, reply: ReplyView) -> Result<
        (),
        SetupErrorView,
    > {
        match command_outcome(reply, link_command(config)) {
            Ok(_) => Ok(()),
            Err(e) => Err(e),
        }
    }

    fn request(&self, config: &SymlinkConfig) -> (request: Request) {
        let mut args: Vec<String> = Vec::new();
        args.push("-c".to_owned());
        args.push(self.command(config));
        let command = command_of("sh", args);
        assert(command@.args =~= seq!["-c"@, link_command(config@)]);
        Request::Run(command)
    }

    fn create(&self, config: &SymlinkConfig, reply: &Reply) -> (outcome: SetupResult<()>) {
        let text = self.command(config);
        match reply.command_result(text.as_str()) {
            Ok(_) => Ok(()),
            Err(e) => Err(e),
        }
    }
}

} // verus!
