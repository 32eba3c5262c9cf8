//! The ways in which a run of the tool can fail.

use vstd::prelude::*;
use vstd::string::*;

verus! {

/// Every error ends the current run; none is retried.
#[derive(Clone, Copy, Debug, PartialEq, Eq, Structural)]
pub enum PassError {
    /// The configuration cannot be used: no home directory, or an empty pool.
    Config,
    /// The store could not be created, read or written.
    Io,
    /// The finder could not be started, or its output could not be read.
    ExternalProcess,
    /// The clipboard could not be reached.
    Clipboard,
    /// The selected line is not of the shape `name: password`.
    Format,
}

impl PassError {
    /// The text shown to the user for this error.
    pub open spec fn message_chars(self) -> Seq<char> {
        match self {
            PassError::Config => "configuration error"@,
            PassError::Io => "store could not be read or written"@,
            PassError::ExternalProcess => "finder could not be run"@,
            PassError::Clipboard => "clipboard could not be accessed"@,
            PassError::Format => "invalid password format"@,
        }
    }

    /// A short description for the user.
    pub fn message(&self) -> (text: String)
        ensures
            text@ == self.message_chars(),
    {
        match self {
            PassError::Config => String::from_str("configuration error"),
            PassError::Io => String::from_str("store could not be read or written"),
            PassError::ExternalProcess => String::from_str("finder could not be run"),
            PassError::Clipboard => String::from_str("clipboard could not be accessed"),
            PassError::Format => String::from_str("invalid password format"),
        }
    }

    /// The exit status of a run that ended in this error: never zero.
    pub open spec fn exit_status(self) -> int {
        match self {
            PassError::Config => 2,
            PassError::Io => 3,
            PassError::ExternalProcess => 4,
            PassError::Clipboard => 5,
            PassError::Format => 6,
        }
    }

    /// The process exit code for this error.
    pub fn exit_code(&self) -> (code: i32)
        ensures
            code == self.exit_status(),
            code != 0,
    {
        match self {
            PassError::Config => 2,
            PassError::Io => 3,
            PassError::ExternalProcess => 4,
            PassError::Clipboard => 5,
            PassError::Format => 6,
        }
    }
}

} // verus!
