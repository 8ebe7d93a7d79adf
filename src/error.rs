use vstd::prelude::*;
use crate::text::{decimal_text, i32_to_decimal};

verus! {

/// Everything that can go wrong in a run, with the data that describes it.
/// How an error reads to a person is given by `message`.
#[derive(Debug)]
pub enum UpdateError {
    /// The process lacks root privileges.
    NotRoot,
    /// The reachability probe failed.
    NoNetwork,
    /// A command exited unsuccessfully: its command line, exit code and
    /// captured standard output.
    CommandFailed { cmd: String, code: i32, details: String },
    /// The named executable could not be found.
    CommandNotFound(String),
    /// The configuration could not be used.
    Config(String),
    /// Any other operating-system failure, by its description.
    Io(String),
    /// The run was interrupted before its next operation started.
    Cancelled,
}

impl UpdateError {
    /// The human-readable text of the error.
    pub open spec fn message_spec(&self) -> Seq<char> {
        match self {
            UpdateError::NotRoot => "Must run as root. Use: sudo sysupdater"@,
            UpdateError::NoNetwork => "No network connectivity"@,
            UpdateError::CommandFailed { cmd, code, details } =>
                "Command failed: "@ + cmd@ + "\n  Exit code: "@ + decimal_text(*code as int)
                    + "\n  Details: "@ + details@,
            UpdateError::CommandNotFound(name) => "Command not found: "@ + name@,
            UpdateError::Config(m) => "Configuration error: "@ + m@,
            UpdateError::Io(m) => "IO error: "@ + m@,
            UpdateError::Cancelled => "Operation cancelled by user"@,
        }
    }

    /// Renders the error as one message.
    pub fn message(&self) -> (r: String)
        ensures
            r@ == self.message_spec(),
    {
        match self {
            UpdateError::NotRoot => String::from_str("Must run as root. Use: sudo sysupdater"),
            UpdateError::NoNetwork => String::from_str("No network connectivity"),
            UpdateError::CommandFailed { cmd, code, details } => {
                let mut r = String::from_str("Command failed: ");
                r.append(cmd.as_str());
                r.append("\n  Exit code: ");
                let digits = i32_to_decimal(*code);
                r.append(digits.as_str());
                r.append("\n  Details: ");
                r.append(details.as_str());
                r
            },
            UpdateError::CommandNotFound(name) => String::from_str("Command not found: ").concat(
                name.as_str(),
            ),
            UpdateError::Config(m) => String::from_str("Configuration error: ").concat(m.as_str()),
            UpdateError::Io(m) => String::from_str("IO error: ").concat(m.as_str()),
            UpdateError::Cancelled => String::from_str("Operation cancelled by user"),
        }
    }
}

} // verus!
