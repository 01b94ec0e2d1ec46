//! The lines that tell the user what was found and how the attempt ended.

use vstd::prelude::*;
use vstd::string::StringExecFns;
use crate::content::ContentKind;
use crate::outcome::{FailureReason, FailureReasonView, IoStage, SaveOutcome, SaveOutcomeView};

verus! {

/// Where a line is printed.
#[derive(Clone, Copy, Debug, PartialEq, Eq, Structural)]
pub enum Stream {
    Stdout,
    Stderr,
}

/// One line for the user.
#[derive(Clone, Debug, PartialEq, Eq)]
pub struct StatusLine {
    pub stream: Stream,
    pub text: String,
}

/// `StatusLine` with its text as a sequence of characters.
pub struct StatusLineView {
    pub stream: Stream,
    pub text: Seq<char>,
}

impl View for StatusLine {
    type V = StatusLineView;

    open spec fn view(&self) -> StatusLineView {
        StatusLineView { stream: self.stream, text: self.text@ }
    }
}

/// The notice that goes out when content of this kind was found.
pub open spec fn notice(kind: ContentKind) -> Seq<char> {
    match kind {
        ContentKind::Image => "Image data detected. Opening save dialog..."@,
        ContentKind::Text => "Text data detected. Opening save dialog..."@,
    }
}

/// What is said of a codec failure that came with no detail.
pub const CODEC_SILENCE: &'static str = "The image encoder failed.";

/// The line for a failed attempt. File system and codec failures go to the
/// error stream and carry the detail; an unsupported clipboard is no error.
pub open spec fn failure_status(reason: FailureReasonView) -> StatusLineView {
    match reason {
        FailureReasonView::Io { stage: IoStage::Create, detail } => StatusLineView {
            stream: Stream::Stderr,
            text: "Error creating file: "@ + detail,
        },
        FailureReasonView::Io { stage: IoStage::Write, detail } => StatusLineView {
            stream: Stream::Stderr,
            text: "Error writing to file: "@ + detail,
        },
        FailureReasonView::Codec { detail } => StatusLineView {
            stream: Stream::Stderr,
            text: "Error saving image. "@ + detail,
        },
        FailureReasonView::UnsupportedContent => StatusLineView {
            stream: Stream::Stdout,
            text: "Clipboard is empty or contains an unsupported format."@,
        },
    }
}

/// The line for the end of an attempt to save content of the given kind.
pub open spec fn status(kind: ContentKind, outcome: SaveOutcomeView) -> StatusLineView {
    match outcome {
        SaveOutcomeView::Saved(path) => StatusLineView {
            stream: Stream::Stdout,
            text: match kind {
                ContentKind::Image => "Image successfully saved to: "@ + path,
                ContentKind::Text => "Text successfully saved to: "@ + path,
            },
        },
        SaveOutcomeView::Canceled => StatusLineView {
            stream: Stream::Stdout,
            text: match kind {
                ContentKind::Image => "Image save canceled."@,
                ContentKind::Text => "Text save canceled."@,
            },
        },
        SaveOutcomeView::Failed(reason) => failure_status(reason),
    }
}

/// The notice that goes out when content of this kind was found.
pub fn detection_notice(kind: ContentKind) -> (text: &'static str)
    ensures
        text@ == notice(kind),
{
    match kind {
        ContentKind::Image => "Image data detected. Opening save dialog...",
        ContentKind::Text => "Text data detected. Opening save dialog...",
    }
}

/// The line for a failed attempt.
pub fn failure_line(reason: &FailureReason) -> (line: StatusLine)
    ensures
        line@ == failure_status(reason@),
{
    match reason {
        FailureReason::Io { stage: IoStage::Create, detail } => StatusLine {
            stream: Stream::Stderr,
            text: String::from_str("Error creating file: ").concat(detail.as_str()),
        },
        FailureReason::Io { stage: IoStage::Write, detail } => StatusLine {
            stream: Stream::Stderr,
            text: String::from_str("Error writing to file: ").concat(detail.as_str()),
        },
        FailureReason::Codec { detail } => StatusLine {
            stream: Stream::Stderr,
            text: String::from_str("Error saving image. ").concat(detail.as_str()),
        },
        FailureReason::UnsupportedContent => StatusLine {
            stream: Stream::Stdout,
            text: String::from_str("Clipboard is empty or contains an unsupported format."),
        },
    }
}

/// The line for the end of an attempt to save content of the given kind.
pub fn status_line(kind: ContentKind, outcome: &SaveOutcome) -> (line: StatusLine)
    ensures
        line@ == status(kind, outcome@),
{
    match outcome {
        SaveOutcome::Saved(path) => {
            let lead = match kind {
                ContentKind::Image => String::from_str("Image successfully saved to: "),
                ContentKind::Text => String::from_str("Text successfully saved to: "),
            };
            StatusLine { stream: Stream::Stdout, text: lead.concat(path.as_str()) }
        },
        SaveOutcome::Canceled => {
            let text = match kind {
                ContentKind::Image => String::from_str("Image save canceled."),
                ContentKind::Text => String::from_str("Text save canceled."),
            };
            StatusLine { stream: Stream::Stdout, text }
        },
        SaveOutcome::Failed(reason) => failure_line(reason),
    }
}

} // verus!
