//! Commands that the session asks other programs to carry out. They are
//! only described here; running them is left to the caller, who reports
//! back how each one ended.

use vstd::prelude::*;
use vstd::string::*;

verus! {

/// A program to run, with its arguments.
#[derive(Debug, PartialEq, Eq)]
pub struct ExternalCommand {
    pub program: String,
    pub args: Vec<String>,
}

/// A command as plain values.
pub struct CommandView {
    pub program: Seq<char>,
    pub args: Seq<Seq<char>>,
}

impl View for ExternalCommand {
    type V = CommandView;

    open spec fn view(&self) -> CommandView {
        CommandView { program: self.program@, args: self.args.deep_view() }
    }
}

/// How a command ended.
#[derive(Debug, PartialEq, Eq)]
pub enum CommandOutcome {
    /// The program could not be started.
    NotStarted,
    /// The program ran and reported failure.
    Failed,
    /// The program ran and reported success; `output` is what it printed.
    Succeeded { output: String },
}

/// How a command ended, as plain values.
pub enum OutcomeView {
    NotStarted,
    Failed,
    Succeeded { output: Seq<char> },
}

impl View for CommandOutcome {
    type V = OutcomeView;

    open spec fn view(&self) -> OutcomeView {
        match self {
            CommandOutcome::NotStarted => OutcomeView::NotStarted,
            CommandOutcome::Failed => OutcomeView::Failed,
            CommandOutcome::Succeeded { output } => OutcomeView::Succeeded { output: output@ },
        }
    }
}

/// The views of a list of commands.
pub open spec fn command_views(commands: Seq<ExternalCommand>) -> Seq<CommandView> {
    Seq::new(commands.len(), |i: int| commands[i]@)
}

/// Adds one argument to a list of arguments.
pub fn push_arg(args: &mut Vec<String>, text: &str)
    ensures
        final(args).deep_view() == old(args).deep_view().push(text@),
{
    args.push(String::from_str(text));
    assert(final(args).deep_view() =~= old(args).deep_view().push(text@));
}

/// Adds one command to a list of commands.
pub fn push_command(commands: &mut Vec<ExternalCommand>, command: ExternalCommand)
    ensures
        command_views(final(commands)@) == command_views(old(commands)@).push(command@),
{
    commands.push(command);
    assert(command_views(final(commands)@) =~= command_views(old(commands)@).push(command@));
}

impl ExternalCommand {
    /// A command of the given program, without arguments yet.
    pub fn new(program: &str) -> (command: ExternalCommand)
        ensures
            command@ == (CommandView { program: program@, args: Seq::empty() }),
    {
        let command = ExternalCommand { program: String::from_str(program), args: Vec::new() };
        assert(command.args.deep_view() =~= Seq::<Seq<char>>::empty());
        command
    }

    /// Adds one argument.
    pub fn arg(&mut self, text: &str)
        ensures
            final(self)@ == (CommandView {
                program: old(self)@.program,
                args: old(self)@.args.push(text@),
            }),
    {
        push_arg(&mut self.args, text);
    }
}

impl CommandOutcome {
    /// Whether the program ran and reported success.
    pub fn succeeded(&self) -> (ok: bool)
        ensures
            ok == (self@ is Succeeded),
    {
        match self {
            CommandOutcome::Succeeded { .. } => true,
            _ => false,
        }
    }
}

} // verus!
