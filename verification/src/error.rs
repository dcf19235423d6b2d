use crate::text::{push_decimal, decimal_spec};
use vstd::prelude::*;
use vstd::string::*;

verus! {

/// What can go wrong between the library and a terminal.
#[derive(Debug)]
pub enum RutError {
    /// A call of the platform failed: the name of the call, the platform's
    /// error code, and its message.
    SystemCallFailure(String, u32, String),
    /// Reading from or writing to the terminal failed: the name of the call
    /// and what the platform said of the failure.
    IOFailure(String, String),
    /// The terminal is of no known kind: the reason in words.
    UnsupportedTerminal(String),
}

impl RutError {
    /// The error in words, as it is shown to a user.
    pub open spec fn message_spec(&self) -> Seq<char> {
        match self {
            RutError::SystemCallFailure(call, code, message) => "System call "@ + call@
                + " failed with code: ["@ + decimal_spec(*code as nat) + "] "@ + message@,
            RutError::IOFailure(call, cause) => "I/O error when calling "@ + call@ + ": "@
                + cause@,
            RutError::UnsupportedTerminal(details) => "Unsupported terminal: "@ + details@,
        }
    }

    /// The error in words, as it is shown to a user.
    pub fn message(&self) -> (text: String)
        ensures
            text@ == self.message_spec(),
    {
        match self {
            RutError::SystemCallFailure(call, code, message) => {
                let mut text = String::from_str("System call ");
                text.append(call.as_str());
                text.append(" failed with code: [");
                push_decimal(&mut text, *code);
                text.append("] ");
                text.append(message.as_str());
                text
            },
            RutError::IOFailure(call, cause) => {
                let mut text = String::from_str("I/O error when calling ");
                text.append(call.as_str());
                text.append(": ");
                text.append(cause.as_str());
                text
            },
            RutError::UnsupportedTerminal(details) => {
                let mut text = String::from_str("Unsupported terminal: ");
                text.append(details.as_str());
                text
            },
        }
    }
}

} // verus!
