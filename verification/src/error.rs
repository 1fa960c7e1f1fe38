//! The failures that the library reports.

use vstd::prelude::*;
use vstd::string::StringExecFns;
use crate::text::{decimal, decimal_text};

verus! {

/// Why an operation was given up. Every failure ends the operation that met
/// it: nothing is retried.
#[derive(Clone, Copy, Debug, PartialEq, Eq)]
pub enum BargeError {
    /// The project descriptor lacks a required field or holds an unknown
    /// token.
    ConfigError(&'static str),
    /// A token given by the user names no value of the enumeration asked
    /// for.
    InvalidValue(&'static str),
    /// The package query for the external library at this position, counted
    /// from zero in declaration order, failed.
    LibraryResolutionError(usize),
    /// The named program could not be started.
    ToolInvocationError(&'static str),
    /// The build executor ended with a failure status.
    BuildFailed,
    /// The file extension of a build step names no supported kind of step.
    UnsupportedScriptKind,
    /// A build step, or the compilation of one, ended with a failure status.
    StepFailed(&'static str),
    /// What the named program wrote is no text in the encoding UTF-8.
    Utf8Error(&'static str),
}

impl BargeError {
    /// The text shown to the user for this failure.
    pub open spec fn message_text(self) -> Seq<char> {
        match self {
            BargeError::ConfigError(text) => text@,
            BargeError::InvalidValue(text) => text@,
            BargeError::LibraryResolutionError(position) => "Failed to resolve external library "@
                + decimal(position as nat),
            BargeError::ToolInvocationError(program) => "Failed to start "@ + program@,
            BargeError::BuildFailed => "One or more dependencies failed to build"@,
            BargeError::UnsupportedScriptKind => "Invalid file type"@,
            BargeError::StepFailed(text) => text@,
            BargeError::Utf8Error(program) => "Invalid UTF-8 in the output of "@ + program@,
        }
    }

    /// The text shown to the user for this failure.
    pub fn message(&self) -> (r: String)
        ensures
            r@ == self.message_text(),
    {
        match *self {
            BargeError::ConfigError(text) => text.to_owned(),
            BargeError::InvalidValue(text) => text.to_owned(),
            BargeError::LibraryResolutionError(position) => {
                let mut out = "Failed to resolve external library ".to_owned();
                let number = decimal_text(position as u64);
                out.append(number.as_str());
                out
            },
            BargeError::ToolInvocationError(program) => {
                let mut out = "Failed to start ".to_owned();
                out.append(program);
                out
            },
            BargeError::BuildFailed => "One or more dependencies failed to build".to_owned(),
            BargeError::UnsupportedScriptKind => "Invalid file type".to_owned(),
            BargeError::StepFailed(text) => text.to_owned(),
            BargeError::Utf8Error(program) => {
                let mut out = "Invalid UTF-8 in the output of ".to_owned();
                out.append(program);
                out
            },
        }
    }
}

} // verus!
