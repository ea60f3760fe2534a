//! The command envelope: the request body of the execute call.
//!
//! An envelope names the tool that a command is for and carries that tool's
//! command. The only tool addressed here is the toolbox, and its only command
//! runs a script.

use vstd::prelude::*;

verus! {

/// A command of the toolbox.
#[derive(Debug, Clone, PartialEq, Eq)]
pub enum ToolboxCommand {
    /// Run `script_content`; `blocking` asks the server to answer only once
    /// the script has finished.
    RunScript { script_content: String, blocking: bool },
}

/// A command together with the tool that it is for.
#[derive(Debug, Clone, PartialEq, Eq)]
pub enum ToolCommand {
    Toolbox(ToolboxCommand),
}

/// The command envelope.
#[derive(Debug, Clone, PartialEq, Eq)]
pub struct Command {
    pub tool_command: ToolCommand,
}

/// A `ToolboxCommand` with its script as a sequence of characters.
pub ghost enum ToolboxCommandView {
    RunScript { script_content: Seq<char>, blocking: bool },
}

/// A `ToolCommand` over `ToolboxCommandView`.
pub ghost enum ToolCommandView {
    Toolbox(ToolboxCommandView),
}

/// A `Command` over `ToolCommandView`.
pub ghost struct CommandView {
    pub tool_command: ToolCommandView,
}

impl View for ToolboxCommand {
    type V = ToolboxCommandView;

    open spec fn view(&self) -> ToolboxCommandView {
        match *self {
            ToolboxCommand::RunScript { script_content, blocking } => {
                ToolboxCommandView::RunScript { script_content: script_content@, blocking }
            },
        }
    }
}

impl View for ToolCommand {
    type V = ToolCommandView;

    open spec fn view(&self) -> ToolCommandView {
        match *self {
            ToolCommand::Toolbox(command) => ToolCommandView::Toolbox(command@),
        }
    }
}

impl View for Command {
    type V = CommandView;

    open spec fn view(&self) -> CommandView {
        CommandView { tool_command: self.tool_command@ }
    }
}

/// The envelope that asks the toolbox to run `script`.
pub open spec fn run_script_envelope(script: Seq<char>, blocking: bool) -> CommandView {
    CommandView {
        tool_command: ToolCommandView::Toolbox(
            ToolboxCommandView::RunScript { script_content: script, blocking },
        ),
    }
}

impl Command {
    /// Builds the envelope that asks the toolbox to run `script`.
    pub fn run_script(script: &str, blocking: bool) -> (r: Command)
        ensures
            r@ == run_script_envelope(script@, blocking),
    {
        let run = ToolboxCommand::RunScript { script_content: String::from_str(script), blocking };
        Command { tool_command: ToolCommand::Toolbox(run) }
    }

    /// The script that the envelope carries.
    pub fn script(&self) -> (r: &str)
        ensures
            self@ == run_script_envelope(r@, self.blocking()),
    {
        match &self.tool_command {
            ToolCommand::Toolbox(ToolboxCommand::RunScript { script_content, .. }) => {
                script_content.as_str()
            },
        }
    }

    /// Whether the envelope asks the server to wait for the script's end.
    #[verifier::when_used_as_spec(spec_blocking)]
    pub fn blocking(&self) -> (r: bool)
        ensures
            r == self.spec_blocking(),
    {
        match &self.tool_command {
            ToolCommand::Toolbox(ToolboxCommand::RunScript { blocking, .. }) => *blocking,
        }
    }

    /// Whether the envelope asks the server to wait for the script's end.
    pub open spec fn spec_blocking(&self) -> bool {
        match self.tool_command {
            ToolCommand::Toolbox(ToolboxCommand::RunScript { blocking, .. }) => blocking,
        }
    }
}

/// Building an envelope is a function of its inputs: equal scripts and flags
/// give equal envelopes, and only they do.
pub proof fn lemma_envelope_determined_by_inputs(
    script_a: Seq<char>,
    blocking_a: bool,
    script_b: Seq<char>,
    blocking_b: bool,
)
    ensures
        run_script_envelope(script_a, blocking_a) == run_script_envelope(script_b, blocking_b) <==> (
        script_a == script_b && blocking_a == blocking_b),
{
}

} // verus!
