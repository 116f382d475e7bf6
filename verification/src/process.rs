//! Outcomes of external processes and the styles of user-facing messages.
use vstd::prelude::*;

verus! {

/// Exit status of a process.
pub struct ExitStatus {
    code: Option<i32>,
}

impl View for ExitStatus {
    type V = Option<i32>;

    closed spec fn view(&self) -> Option<i32> {
        self.code
    }
}

impl ExitStatus {
    /// An exit status with the given exit code, if any.
    pub fn new(code: Option<i32>) -> (r: Self)
        ensures
            r@ == code,
    {
        ExitStatus { code }
    }

    /// Whether the process exited with code 0.
    pub fn success(&self) -> (r: bool)
        ensures
            r == (self@ == Some(0i32)),
    {
        match self.code {
            Some(c) => c == 0,
            None => false,
        }
    }

    /// The exit code, if any.
    pub fn code(&self) -> (r: Option<i32>)
        ensures
            r == self@,
    {
        self.code
    }
}

/// Output of a finished command.
#[derive(Debug, Clone)]
pub struct CommandOutput {
    /// Whether the command exited successfully
    pub success: bool,
    /// Standard output
    pub stdout: Vec<u8>,
    /// Standard error
    pub stderr: Vec<u8>,
}

/// Styles of user-facing messages.
#[derive(Debug, Clone, Copy, PartialEq, Eq, Structural)]
pub enum MessageStyle {
    /// Bold text
    Bold,
    /// Cyan text
    Cyan,
    /// Green text
    Green,
    /// Red text
    Red,
    /// Yellow text
    Yellow,
    /// A warning
    Warning,
    /// An error
    Error,
    /// A success
    Success,
}

} // verus!
