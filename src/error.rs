//! Error values of the library.
use vstd::prelude::*;

verus! {

/// Errors of the operations core. Each carries a human-readable message.
#[derive(Debug, Clone, PartialEq, Eq)]
pub enum OpsCLIError {
    /// TCP connect, handshake or authentication failed.
    SSHConnection(String),
    /// A channel could not be opened, written, read or closed.
    CommandExecution(String),
    /// The command policy rejected the command; carries the rule that fired.
    Policy(String),
    /// The remote command did not exit within the requested time.
    Timeout(String),
    Configuration(String),
    AWS(String),
    Validation(String),
}

impl OpsCLIError {
    /// The message carried by the error.
    pub fn message(&self) -> (r: &String)
        ensures
            r@ == self.message_view(),
    {
        match self {
            OpsCLIError::SSHConnection(m) => m,
            OpsCLIError::CommandExecution(m) => m,
            OpsCLIError::Policy(m) => m,
            OpsCLIError::Timeout(m) => m,
            OpsCLIError::Configuration(m) => m,
            OpsCLIError::AWS(m) => m,
            OpsCLIError::Validation(m) => m,
        }
    }

    /// The message carried by the error, as characters.
    pub open spec fn message_view(&self) -> Seq<char> {
        match self {
            OpsCLIError::SSHConnection(m) => m@,
            OpsCLIError::CommandExecution(m) => m@,
            OpsCLIError::Policy(m) => m@,
            OpsCLIError::Timeout(m) => m@,
            OpsCLIError::Configuration(m) => m@,
            OpsCLIError::AWS(m) => m@,
            OpsCLIError::Validation(m) => m@,
        }
    }
}

} // verus!
