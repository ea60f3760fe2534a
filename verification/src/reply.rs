//! The replies of the server, and what a reply to a script means.

use crate::error::{ClientError, ClientErrorView};
use crate::metadata::{MetaValueView, Metadata};
use vstd::prelude::*;

verus! {

/// The status code of a reply that reports success. Every other code
/// reports a failure.
pub const SUCCESS: i32 = 1;

/// The metadata key under which a script's output is returned.
pub const RESPONSE_KEY: &'static str = "response";

/// The output reported for a script that succeeded without returning any.
pub const NO_OUTPUT: &'static str = "Script executed (no output)";

/// The reply to a status query.
#[derive(Debug, Clone, PartialEq, Eq)]
pub struct StatusReply {
    /// The state of the server, as a code.
    pub status: i32,
    /// For how long the server has been up, in seconds.
    pub uptime: i64,
    /// What went wrong, if anything did.
    pub error_message: Option<String>,
}

/// The reply to a command.
#[derive(Debug)]
pub struct CommandReply {
    /// The status code: `SUCCESS`, or the code of a failure.
    pub response: i32,
    /// What went wrong, if the reply says so.
    pub error_message: Option<String>,
    /// What the tool returned, if it returned anything.
    pub meta_data: Option<Metadata>,
}

/// A `StatusReply` with its strings as sequences of characters.
pub ghost struct StatusReplyView {
    pub status: i32,
    pub uptime: i64,
    pub error_message: Option<Seq<char>>,
}

/// A `CommandReply` with its strings as sequences of characters and its
/// metadata as a mapping.
pub ghost struct CommandReplyView {
    pub response: i32,
    pub error_message: Option<Seq<char>>,
    pub meta_data: Option<Map<Seq<char>, MetaValueView>>,
}

impl View for StatusReply {
    type V = StatusReplyView;

    open spec fn view(&self) -> StatusReplyView {
        StatusReplyView {
            status: self.status,
            uptime: self.uptime,
            error_message: self.error_message.deep_view(),
        }
    }
}

impl View for CommandReply {
    type V = CommandReplyView;

    open spec fn view(&self) -> CommandReplyView {
        CommandReplyView {
            response: self.response,
            error_message: self.error_message.deep_view(),
            meta_data: match self.meta_data {
                Some(metadata) => Some(metadata@),
                None => None,
            },
        }
    }
}

impl CommandReplyView {
    /// The metadata value under `RESPONSE_KEY`, if there is metadata and it
    /// has that key.
    pub open spec fn response_value(self) -> Option<MetaValueView> {
        match self.meta_data {
            Some(metadata) => if metadata.contains_key(RESPONSE_KEY@) {
                Some(metadata[RESPONSE_KEY@])
            } else {
                None
            },
            None => None,
        }
    }

    /// The output of a script whose reply reports success: the text that
    /// shows the value under `RESPONSE_KEY`, and `NO_OUTPUT` where the reply
    /// has no metadata, the metadata lacks the key, or the value has no
    /// kind.
    pub open spec fn output_text(self) -> Seq<char> {
        match self.response_value() {
            Some(value) => match value.display_text() {
                Some(text) => text,
                None => NO_OUTPUT@,
            },
            None => NO_OUTPUT@,
        }
    }

    /// What running a script comes to, given the reply: its output, or the
    /// failure that the reply reports.
    pub open spec fn script_outcome(self) -> Result<Seq<char>, ClientErrorView> {
        if self.response == SUCCESS {
            succeeded(self.output_text())
        } else {
            failed(
                ClientErrorView::ScriptExecution {
                    code: self.response,
                    error_message: self.error_message,
                },
            )
        }
    }
}

/// The outcome of a script that gave `output`.
pub open spec fn succeeded(output: Seq<char>) -> Result<Seq<char>, ClientErrorView> {
    Ok(output)
}

/// The outcome of a script that failed with `error`.
pub open spec fn failed(error: ClientErrorView) -> Result<Seq<char>, ClientErrorView> {
    Err(error)
}

/// The outcome of a script with its strings as sequences of characters.
pub open spec fn outcome_view(outcome: Result<String, ClientError>) -> Result<
    Seq<char>,
    ClientErrorView,
> {
    match outcome {
        Ok(output) => Ok(output@),
        Err(error) => Err(error@),
    }
}

impl CommandReply {
    /// Decodes the reply to a script: the script's output where the reply
    /// reports success, and the reported failure where it does not.
    pub fn script_output(self) -> (r: Result<String, ClientError>)
        ensures
            outcome_view(r) == self@.script_outcome(),
            // The script succeeded if and only if the reply says so.
            r is Ok <==> self.response == SUCCESS,
            // A failure carries the status code and the error message of the
            // reply, as they are.
            self.response != SUCCESS ==> outcome_view(r) == failed(
                ClientErrorView::ScriptExecution {
                    code: self.response,
                    error_message: self.error_message.deep_view(),
                },
            ),
            // Without a value under the key, success has the fixed output.
            self.response == SUCCESS && self@.response_value() is None ==> outcome_view(r)
                == succeeded(NO_OUTPUT@),
            // A string is returned as it is.
            self.response == SUCCESS ==> (self@.response_value() matches Some(
                MetaValueView::Text(text),
            ) ==> outcome_view(r) == succeeded(text)),
            // A number is returned as its decimal text.
            self.response == SUCCESS ==> (self@.response_value() matches Some(
                MetaValueView::Number(text),
            ) ==> outcome_view(r) == succeeded(text)),
            // A truth value is returned as `true` or `false`.
            self.response == SUCCESS ==> (self@.response_value() matches Some(
                MetaValueView::Boolean(b),
            ) ==> outcome_view(r) == succeeded(
                if b {
                    "true"@
                } else {
                    "false"@
                },
            )),
            // The null value is returned as `null`.
            self.response == SUCCESS && self@.response_value() == Some(MetaValueView::Null)
                ==> outcome_view(r) == succeeded("null"@),
            // A value of another kind is returned as the text held for it.
            self.response == SUCCESS ==> (self@.response_value() matches Some(
                MetaValueView::Nested(text),
            ) ==> outcome_view(r) == succeeded(text)),
            // A value without a kind counts as no output.
            self.response == SUCCESS && self@.response_value() == Some(MetaValueView::Unset)
                ==> outcome_view(r) == succeeded(NO_OUTPUT@),
    {
        if self.response != SUCCESS {
            return Err(
                ClientError::ScriptExecution {
                    code: self.response,
                    error_message: self.error_message,
                },
            );
        }
        if let Some(metadata) = self.meta_data {
            if let Some(value) = metadata.get(RESPONSE_KEY) {
                if let Some(text) = value.display_text() {
                    return Ok(text);
                }
            }
        }
        Ok(String::from_str(NO_OUTPUT))
    }
}

} // verus!
