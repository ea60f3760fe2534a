//! What the command line front end shows and decides. Reading, calling the
//! server and printing are the caller's part.

use crate::error::{ClientError, ClientErrorView};
use crate::reply::{outcome_view, StatusReply, StatusReplyView};
use crate::numeral::{decimal_string, decimal_text};
use crate::text::{
    is_white_space, lemma_trimmed_blank, lemma_trimmed_ends, lemma_trimmed_unchanged, str_eq, trim,
    trimmed,
};
use vstd::prelude::*;

verus! {

/// The line that shows the state of the server.
pub open spec fn state_line(status: int) -> Seq<char> {
    "  State: "@ + decimal_text(status) + " (3=READY)"@
}

/// The line that shows for how long the server has been up.
pub open spec fn uptime_line(uptime: int) -> Seq<char> {
    "  Uptime: "@ + decimal_text(uptime) + " seconds"@
}

/// The line that shows an error message.
pub open spec fn error_line(message: Seq<char>) -> Seq<char> {
    "  Error: "@ + message
}

/// The lines that show a status reply: the state, the uptime, and the error
/// message where there is one and it is not empty.
pub open spec fn status_report(reply: StatusReplyView) -> Seq<Seq<char>> {
    let lines = seq![state_line(reply.status as int), uptime_line(reply.uptime as int)];
    match reply.error_message {
        Some(message) => if message.len() > 0 {
            lines.push(error_line(message))
        } else {
            lines
        },
        None => lines,
    }
}

/// Builds the lines that show a status reply.
pub fn status_lines(reply: &StatusReply) -> (r: Vec<String>)
    ensures
        r.deep_view() == status_report(reply@),
{
    let mut lines: Vec<String> = Vec::new();

    let mut state = String::from_str("  State: ");
    state.append(decimal_string(reply.status as i64).as_str());
    state.append(" (3=READY)");
    lines.push(state);

    let mut uptime = String::from_str("  Uptime: ");
    uptime.append(decimal_string(reply.uptime).as_str());
    uptime.append(" seconds");
    lines.push(uptime);

    if let Some(message) = &reply.error_message {
        if !message.as_str().is_empty() {
            let mut error = String::from_str("  Error: ");
            error.append(message.as_str());
            lines.push(error);
        }
    }
    lines
}

/// What the interactive loop has read.
#[derive(Debug, Clone, PartialEq, Eq)]
pub enum ReplInput {
    /// A line of input, with or without its line end.
    Line(String),
    /// The input has ended.
    EndOfInput,
}

/// What the interactive loop does next.
#[derive(Debug, Clone, PartialEq, Eq)]
pub enum ReplAction {
    /// Leave the loop.
    Quit,
    /// Read the next line; nothing is sent.
    Skip,
    /// Send the script, and show what comes back.
    Run { script: String, blocking: bool },
}

/// A `ReplInput` with its line as a sequence of characters.
pub ghost enum ReplInputView {
    Line(Seq<char>),
    EndOfInput,
}

/// A `ReplAction` with its script as a sequence of characters.
pub ghost enum ReplActionView {
    Quit,
    Skip,
    Run { script: Seq<char>, blocking: bool },
}

impl View for ReplInput {
    type V = ReplInputView;

    open spec fn view(&self) -> ReplInputView {
        match *self {
            ReplInput::Line(line) => ReplInputView::Line(line@),
            ReplInput::EndOfInput => ReplInputView::EndOfInput,
        }
    }
}

impl View for ReplAction {
    type V = ReplActionView;

    open spec fn view(&self) -> ReplActionView {
        match *self {
            ReplAction::Quit => ReplActionView::Quit,
            ReplAction::Skip => ReplActionView::Skip,
            ReplAction::Run { script, blocking } => ReplActionView::Run { script: script@, blocking },
        }
    }
}

/// Whether `word` is one of the two words that end the interactive loop.
pub open spec fn is_quit_word(word: Seq<char>) -> bool {
    word == "exit"@ || word == "quit"@
}

/// What a line without the white space at its ends asks for: to leave, on
/// one of the two words that end the loop; nothing, where the line is empty;
/// else to run the line as a script and wait for its end.
pub open spec fn line_action(line: Seq<char>) -> ReplActionView {
    if is_quit_word(line) {
        ReplActionView::Quit
    } else if line.len() == 0 {
        ReplActionView::Skip
    } else {
        ReplActionView::Run { script: line, blocking: true }
    }
}

/// What the interactive loop does on an input: on a line, what the line
/// without the white space at its ends asks for; at the end of the input, it
/// leaves.
pub open spec fn repl_decision(input: ReplInputView) -> ReplActionView {
    match input {
        ReplInputView::Line(line) => line_action(trimmed(line)),
        ReplInputView::EndOfInput => ReplActionView::Quit,
    }
}

/// Decides what the interactive loop does on an input.
pub fn repl_step(input: &ReplInput) -> (r: ReplAction)
    ensures
        r@ == repl_decision(input@),
{
    match input {
        ReplInput::Line(line) => {
            let script = trim(line.as_str());
            if str_eq(script, "exit") || str_eq(script, "quit") {
                ReplAction::Quit
            } else if script.is_empty() {
                ReplAction::Skip
            } else {
                ReplAction::Run { script: String::from_str(script), blocking: true }
            }
        },
        ReplInput::EndOfInput => ReplAction::Quit,
    }
}

/// The line that the interactive loop shows for the outcome of a script:
/// the output unless it is empty, and a failure's message behind `Error: `.
pub open spec fn repl_report(outcome: Result<Seq<char>, ClientErrorView>) -> Option<Seq<char>> {
    match outcome {
        Ok(output) => if output.len() > 0 {
            Some(output)
        } else {
            None
        },
        Err(error) => Some("Error: "@ + error.message()),
    }
}

/// Builds the line that the interactive loop shows for the outcome of a
/// script, if it shows one.
pub fn repl_line(outcome: &Result<String, ClientError>) -> (r: Option<String>)
    ensures
        r.deep_view() == repl_report(outcome_view(*outcome)),
{
    match outcome {
        Ok(output) => {
            if output.as_str().is_empty() {
                None
            } else {
                Some(output.clone())
            }
        },
        Err(error) => {
            let mut line = String::from_str("Error: ");
            line.append(error.message().as_str());
            Some(line)
        },
    }
}

/// A line that is one of the two words that end the loop, or holds one and
/// white space at most besides, ends it: no script is run.
pub proof fn lemma_quit_word_ends_loop(line: Seq<char>)
    requires
        is_quit_word(line) || is_quit_word(trimmed(line)),
    ensures
        repl_decision(ReplInputView::Line(line)) == ReplActionView::Quit,
{
    if is_quit_word(line) {
        reveal_strlit("exit");
        reveal_strlit("quit");
        lemma_trimmed_unchanged(line);
    }
}

/// A line of white space alone sends nothing.
pub proof fn lemma_blank_line_is_skipped(line: Seq<char>)
    requires
        forall|k: int| 0 <= k < line.len() ==> is_white_space(#[trigger] line[k]),
    ensures
        repl_decision(ReplInputView::Line(line)) == ReplActionView::Skip,
{
    lemma_trimmed_blank(line);
    reveal_strlit("exit");
    reveal_strlit("quit");
}

/// A script that the loop runs is never empty, has no white space at either
/// end, and is neither of the two words that end the loop; the loop waits
/// for its end.
pub proof fn lemma_run_script_is_trimmed(input: ReplInputView)
    requires
        repl_decision(input) is Run,
    ensures
        ({
            let script = repl_decision(input)->script;
            &&& repl_decision(input)->blocking
            &&& script.len() > 0
            &&& !is_white_space(script.first())
            &&& !is_white_space(script.last())
            &&& !is_quit_word(script)
        }),
{
    let line = input->Line_0;
    lemma_trimmed_ends(line);
}

} // verus!
