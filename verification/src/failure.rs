//! What can go wrong during a run, and how it is told.

use vstd::prelude::*;

verus! {

/// The step of a run that failed.
#[derive(Debug, Clone, Copy, PartialEq, Eq, Structural)]
pub enum FailureKind {
    /// The program was not started with exactly one argument.
    Usage,
    /// The settings could not be read, or lack a required entry.
    Config,
    /// The daemon could not be reached or refused the credentials.
    Auth,
    /// The request could not be built, or the daemon did not take it.
    Submission,
    /// The notification could not be shown.
    Notify,
}

/// A failure of one step, with the text that describes it to the user.
#[derive(Debug, Clone, PartialEq, Eq)]
pub struct Failure {
    pub kind: FailureKind,
    pub message: String,
}

/// The mathematical value of a [`Failure`].
pub struct FailureView {
    pub kind: FailureKind,
    pub message: Seq<char>,
}

impl View for Failure {
    type V = FailureView;

    open spec fn view(&self) -> FailureView {
        FailureView { kind: self.kind, message: self.message@ }
    }
}

} // verus!
