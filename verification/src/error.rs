//! The failure taxonomy of the execution core.
//!
//! Every public operation returns a `Result` whose error is one of these
//! variants; none of the verified functions panics. The surrounding binary
//! converts a variant into one line of user-visible text and continues the
//! read-eval loop.

use vstd::prelude::*;

verus! {

/// Why a command could not be constructed, dispatched or tracked.
#[derive(Clone, Copy, PartialEq, Eq, Structural, Debug)]
pub enum ShellError {
    /// A builtin was given more (or fewer) arguments than it accepts.
    ArgCount,
    /// An argument that must be a decimal integer could not be parsed as one.
    BadNumber,
    /// `cd` was called with no argument and no home directory is known.
    NoHome,
    /// An interior pipeline stage carried an explicit input redirect; its
    /// stdin is always taken by the upstream pipe, so this is rejected
    /// rather than silently ignored.
    InteriorInput,
    /// A non-terminal pipeline stage redirected its stdout to a file, so no
    /// stdout descriptor is left to hand to the next stage.
    NoPipeSource,
    /// `fg` named a process id that no live job in the table carries.
    UnknownJob,
    /// A foreground job was registered while another one is still running.
    ForegroundBusy,
    /// The job table has run out of fresh identifiers.
    IdsExhausted,
}

impl ShellError {
    /// One line of text describing the failure, for the error stream.
    pub fn message(&self) -> (r: String)
        ensures
            r@.len() > 0,
    {
        let s = match self {
            ShellError::ArgCount => "Unexpected args number.",
            ShellError::BadNumber => "Failed to parse a number.",
            ShellError::NoHome => "Failed to get the home directory.",
            ShellError::InteriorInput => "Input of an interior pipeline stage is the upstream pipe.",
            ShellError::NoPipeSource => "No stdout is left to feed the next pipeline stage.",
            ShellError::UnknownJob => "No such job.",
            ShellError::ForegroundBusy => "A foreground job is already running.",
            ShellError::IdsExhausted => "No job ids are left.",
        };
        proof {
            reveal_strlit("Unexpected args number.");
            reveal_strlit("Failed to parse a number.");
            reveal_strlit("Failed to get the home directory.");
            reveal_strlit("Input of an interior pipeline stage is the upstream pipe.");
            reveal_strlit("No stdout is left to feed the next pipeline stage.");
            reveal_strlit("No such job.");
            reveal_strlit("A foreground job is already running.");
            reveal_strlit("No job ids are left.");
        }
        String::from_str(s)
    }
}

} // verus!
