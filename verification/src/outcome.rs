//! What an operation reports to the host: success, a list of display lines,
//! or a failure with a coarse kind and a readable message.

use vstd::prelude::*;
use crate::text::texts;

verus! {

/// The coarse kind of a failure.
#[derive(Clone, Copy, Debug, PartialEq, Eq)]
pub enum FailureKind {
    /// No project manifest was found; nothing was spawned.
    Precondition,
    /// The external executable could not be launched.
    Spawn,
    /// The external executable ran and exited with a failure status.
    Command,
    /// The formatting pass after a successful change failed.
    Format,
    /// The registry request could not be sent, or no response came back.
    Network,
    /// A reply was received but did not have the expected shape.
    ResponseParse,
    /// The shared execution context could not be constructed.
    RuntimeInit,
}

/// A failure as the host sees it.
#[derive(Clone, Debug, PartialEq, Eq)]
pub struct Failure {
    pub kind: FailureKind,
    pub message: String,
}

/// Mathematical value of a [`Failure`].
pub struct FailureModel {
    pub kind: FailureKind,
    pub message: Seq<char>,
}

impl View for Failure {
    type V = FailureModel;

    open spec fn view(&self) -> FailureModel {
        FailureModel { kind: self.kind, message: self.message@ }
    }
}

impl Failure {
    /// A failure of the given kind whose message is `prefix` followed by
    /// `detail`.
    pub fn explained(kind: FailureKind, prefix: &str, detail: &str) -> (failure: Failure)
        ensures
            failure@ == (FailureModel { kind, message: prefix@ + detail@ }),
    {
        Failure { kind, message: crate::text::joined(prefix, detail) }
    }

    /// The failure reported when the shared execution context cannot be
    /// built: the builder's own words, unchanged.
    pub fn runtime_init(reason: String) -> (failure: Failure)
        ensures
            failure@ == (FailureModel { kind: FailureKind::RuntimeInit, message: reason@ }),
    {
        Failure { kind: FailureKind::RuntimeInit, message: reason }
    }
}

/// The only value that crosses the host boundary.
#[derive(Clone, Debug, PartialEq, Eq)]
pub enum OperationOutcome {
    /// A change was applied.
    Done,
    /// Display lines, in the order in which the source listed them.
    Lines(Vec<String>),
    /// The operation failed.
    Failed(Failure),
}

/// Mathematical value of an [`OperationOutcome`].
pub enum OutcomeModel {
    Done,
    Lines(Seq<Seq<char>>),
    Failed(FailureModel),
}

impl View for OperationOutcome {
    type V = OutcomeModel;

    open spec fn view(&self) -> OutcomeModel {
        match self {
            OperationOutcome::Done => OutcomeModel::Done,
            OperationOutcome::Lines(lines) => OutcomeModel::Lines(texts(lines@)),
            OperationOutcome::Failed(failure) => OutcomeModel::Failed(failure@),
        }
    }
}

} // verus!
