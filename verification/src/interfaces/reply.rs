//! What goes back to the caller of a command.

use crate::common::result::AppError;
use vstd::prelude::*;
use vstd::string::StringExecFns;

verus! {

/// The answer to a command: a status and a message.
#[derive(Debug, Clone, PartialEq, Eq)]
pub struct MessageReply {
    pub id: String,
    pub message: String,
}

impl MessageReply {
    /// The answer to a command that selects no service.
    pub fn unknown_command() -> (reply: MessageReply)
        ensures
            reply.id@ == "Internal Server Error"@,
            reply.message@ == "Please try again!"@,
    {
        MessageReply {
            id: String::from_str("Internal Server Error"),
            message: String::from_str("Please try again!"),
        }
    }

    /// The answer that carries the outcome of a service: the result under
    /// the status `OK`, or the text of the error under the status `ERROR`.
    pub fn of(outcome: Result<String, AppError>) -> (reply: MessageReply)
        ensures
            match outcome {
                Ok(text) => reply.id@ == "OK"@ && reply.message@ == text@,
                Err(e) => reply.id@ == "ERROR"@ && reply.message@ == e.message_text(),
            },
    {
        match outcome {
            Ok(text) => MessageReply { id: String::from_str("OK"), message: text },
            Err(e) => MessageReply { id: String::from_str("ERROR"), message: e.message() },
        }
    }
}

} // verus!
