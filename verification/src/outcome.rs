//! How one save attempt ended.

use vstd::prelude::*;

verus! {

/// The step of writing a file at which the file system refused.
#[derive(Clone, Copy, Debug, PartialEq, Eq, Structural)]
pub enum IoStage {
    /// Creating or truncating the destination.
    Create,
    /// Writing the payload into it.
    Write,
}

/// Why nothing was saved.
#[derive(Clone, Debug, PartialEq, Eq)]
pub enum FailureReason {
    /// The file system refused; `detail` is its own description of the error.
    Io { stage: IoStage, detail: String },
    /// The image codec reported a failure.
    Codec { detail: String },
    /// The clipboard held neither an image nor text.
    UnsupportedContent,
}

/// `FailureReason` with its strings as sequences of characters.
pub enum FailureReasonView {
    Io { stage: IoStage, detail: Seq<char> },
    Codec { detail: Seq<char> },
    UnsupportedContent,
}

impl View for FailureReason {
    type V = FailureReasonView;

    open spec fn view(&self) -> FailureReasonView {
        match *self {
            FailureReason::Io { stage, detail } => FailureReasonView::Io { stage, detail: detail@ },
            FailureReason::Codec { detail } => FailureReasonView::Codec { detail: detail@ },
            FailureReason::UnsupportedContent => FailureReasonView::UnsupportedContent,
        }
    }
}

/// The result of one save attempt.
#[derive(Clone, Debug, PartialEq, Eq)]
pub enum SaveOutcome {
    /// The payload is in the file at this path.
    Saved(String),
    /// The user dismissed the destination picker.
    Canceled,
    /// Nothing was saved, for this reason.
    Failed(FailureReason),
}

/// `SaveOutcome` with its strings as sequences of characters.
pub enum SaveOutcomeView {
    Saved(Seq<char>),
    Canceled,
    Failed(FailureReasonView),
}

impl View for SaveOutcome {
    type V = SaveOutcomeView;

    open spec fn view(&self) -> SaveOutcomeView {
        match *self {
            SaveOutcome::Saved(path) => SaveOutcomeView::Saved(path@),
            SaveOutcome::Canceled => SaveOutcomeView::Canceled,
            SaveOutcome::Failed(reason) => SaveOutcomeView::Failed(reason@),
        }
    }
}

} // verus!
