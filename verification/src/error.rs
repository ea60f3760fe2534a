//! The one error type of the client, and the text of each failure.

use crate::numeral::{decimal_string, decimal_text};
use crate::text::{
    debug_string, debug_text, lemma_concat_associative, lemma_occurs_at_end, lemma_occurs_between,
    occurs_in,
};
use vstd::prelude::*;

verus! {

/// Why a call of the client failed.
#[derive(Debug, Clone, PartialEq, Eq)]
pub enum ClientError {
    /// No channel to `address` could be opened; `cause` is the transport's
    /// account of it.
    Connection { address: String, cause: String },
    /// A call over an open channel failed; `detail` is the transport's
    /// account of it, as it was given.
    Transport { detail: String },
    /// The call went through, and the reply reports that the script failed:
    /// its status code and its error message, as they were given.
    ScriptExecution { code: i32, error_message: Option<String> },
}

/// A `ClientError` with its strings as sequences of characters.
pub ghost enum ClientErrorView {
    Connection { address: Seq<char>, cause: Seq<char> },
    Transport { detail: Seq<char> },
    ScriptExecution { code: i32, error_message: Option<Seq<char>> },
}

impl View for ClientError {
    type V = ClientErrorView;

    open spec fn view(&self) -> ClientErrorView {
        match *self {
            ClientError::Connection { address, cause } => ClientErrorView::Connection {
                address: address@,
                cause: cause@,
            },
            ClientError::Transport { detail } => ClientErrorView::Transport { detail: detail@ },
            ClientError::ScriptExecution { code, error_message } => {
                ClientErrorView::ScriptExecution {
                    code,
                    error_message: error_message.deep_view(),
                }
            },
        }
    }
}

/// The text of a failure to connect to `address`.
pub open spec fn connection_failure_text(address: Seq<char>) -> Seq<char> {
    "Failed to connect to "@ + address
}

/// How an optional error message is shown: `None`, or the quoted message
/// inside `Some(` and `)`.
pub open spec fn optional_message_text(message: Option<Seq<char>>) -> Seq<char> {
    match message {
        None => "None"@,
        Some(m) => "Some("@ + debug_text(m) + ")"@,
    }
}

/// The text of a script failure with status `code`, where `shown_message` is
/// the reply's error message as it is to be shown.
pub open spec fn script_failure_text(code: int, shown_message: Seq<char>) -> Seq<char> {
    "Script execution failed. Code: "@ + decimal_text(code) + ", Error: "@ + shown_message
}

impl ClientErrorView {
    /// What the error says of itself, without its cause.
    pub open spec fn message(self) -> Seq<char> {
        match self {
            ClientErrorView::Connection { address, .. } => connection_failure_text(address),
            ClientErrorView::Transport { detail } => detail,
            ClientErrorView::ScriptExecution { code, error_message } => script_failure_text(
                code as int,
                optional_message_text(error_message),
            ),
        }
    }

    /// The error's message, followed by the message of what caused it.
    pub open spec fn context_chain(self) -> Seq<Seq<char>> {
        match self {
            ClientErrorView::Connection { cause, .. } => seq![self.message(), cause],
            _ => seq![self.message()],
        }
    }
}

/// Builds the text of a failure to connect to `address`.
pub fn connection_failure_message(address: &str) -> (r: String)
    ensures
        r@ == connection_failure_text(address@),
{
    let mut out = String::from_str("Failed to connect to ");
    out.append(address);
    out
}

/// Shows an optional error message.
pub fn optional_message_string(message: &Option<String>) -> (r: String)
    ensures
        r@ == optional_message_text(message.deep_view()),
{
    match message {
        None => String::from_str("None"),
        Some(m) => {
            let quoted = debug_string(m.as_str());
            let mut out = String::from_str("Some(");
            out.append(quoted.as_str());
            out.append(")");
            out
        },
    }
}

/// Builds the text of a script failure from the status code and the error
/// message as it is to be shown.
pub fn script_failure_message(code: i32, shown_message: &str) -> (r: String)
    ensures
        r@ == script_failure_text(code as int, shown_message@),
{
    let number = decimal_string(code as i64);
    let mut out = String::from_str("Script execution failed. Code: ");
    out.append(number.as_str());
    out.append(", Error: ");
    out.append(shown_message);
    out
}

impl ClientError {
    /// What the error says of itself, without its cause.
    pub fn message(&self) -> (r: String)
        ensures
            r@ == self@.message(),
    {
        match self {
            ClientError::Connection { address, .. } => connection_failure_message(address.as_str()),
            ClientError::Transport { detail } => detail.clone(),
            ClientError::ScriptExecution { code, error_message } => {
                let shown = optional_message_string(error_message);
                script_failure_message(*code, shown.as_str())
            },
        }
    }

    /// The error's message, followed by the message of what caused it.
    pub fn context_chain(&self) -> (r: Vec<String>)
        ensures
            r.deep_view() == self@.context_chain(),
    {
        let mut chain: Vec<String> = Vec::new();
        chain.push(self.message());
        if let ClientError::Connection { cause, .. } = self {
            chain.push(cause.clone());
        }
        chain
    }
}

/// The message of a failure to connect names the address.
pub proof fn lemma_connection_failure_names_address(address: Seq<char>, cause: Seq<char>)
    ensures
        occurs_in(address, ClientErrorView::Connection { address, cause }.message()),
{
    lemma_occurs_at_end("Failed to connect to "@, address);
}

/// The message of a script failure holds the status code, in decimal, and
/// the error message as it is shown, also where there is none.
pub proof fn lemma_script_failure_names_code_and_message(
    code: i32,
    error_message: Option<Seq<char>>,
)
    ensures
        occurs_in(
            decimal_text(code as int),
            ClientErrorView::ScriptExecution { code, error_message }.message(),
        ),
        occurs_in(
            optional_message_text(error_message),
            ClientErrorView::ScriptExecution { code, error_message }.message(),
        ),
        error_message matches Some(m) ==> occurs_in(
            debug_text(m),
            ClientErrorView::ScriptExecution { code, error_message }.message(),
        ),
{
    let lead = "Script execution failed. Code: "@;
    let number = decimal_text(code as int);
    let middle = ", Error: "@;
    let shown = optional_message_text(error_message);
    let text = lead + number + middle + shown;
    assert(occurs_in(number, text)) by {
        lemma_concat_associative(lead + number, middle, shown);
        lemma_occurs_between(lead, number, middle + shown);
    }
    assert(occurs_in(shown, text)) by {
        lemma_occurs_at_end(lead + number + middle, shown);
    }
    if let Some(m) = error_message {
        let head = lead + number + middle;
        let quoted = debug_text(m);
        assert(occurs_in(quoted, text)) by {
            lemma_concat_associative(head, "Some("@ + quoted, ")"@);
            lemma_concat_associative(head, "Some("@, quoted);
            lemma_occurs_between(head + "Some("@, quoted, ")"@);
        }
    }
}

} // verus!
