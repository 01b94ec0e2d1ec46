//! One save attempt as a state machine.
//!
//! A session never acts. It names the one thing to be done next (`pending`)
//! and takes what came of it (`handle`). The driver starts with `Session::new`
//! and goes on until the pending action is `Action::Report`.
//!
//! ```text
//! Idle ──image──▶ AwaitingDestination ──path──▶ Writing ──▶ Finished
//!   │                  ▲       │
//!   └▶ ImageAbsent ──text      └──dismissed──▶ Finished
//!           └──nothing──▶ Unsupported
//! ```

use vstd::prelude::*;
use vstd::string::StringExecFns;
use crate::content::{Content, ContentKind, ContentView};
use crate::format::{format_of_path, infer, ImageFormat};
use crate::outcome::{FailureReason, FailureReasonView, IoStage, SaveOutcome, SaveOutcomeView};
use crate::picker::{request_for, PickerRequest, PickerRequestView};
use crate::report::{
    CODEC_SILENCE,
    detection_notice,
    failure_line,
    failure_status,
    notice,
    status,
    status_line,
    StatusLine,
    StatusLineView,
};

verus! {

/// A refusal of the file system while the text was written.
#[derive(Clone, Debug, PartialEq, Eq)]
pub struct Refusal {
    pub stage: IoStage,
    /// The file system's own description of the error.
    pub detail: String,
}

/// `Refusal` with its detail as a sequence of characters.
pub struct RefusalView {
    pub stage: IoStage,
    pub detail: Seq<char>,
}

impl View for Refusal {
    type V = RefusalView;

    open spec fn view(&self) -> RefusalView {
        RefusalView { stage: self.stage, detail: self.detail@ }
    }
}

/// What came of the action that a session had pending.
#[derive(Debug, PartialEq, Eq)]
pub enum Event {
    /// The clipboard was asked for an image: whether it has one.
    ImageProbed(bool),
    /// The clipboard was asked for text: the text, if it has any.
    TextProbed(Option<String>),
    /// The picker closed: the chosen path, or nothing if it was dismissed.
    DestinationChosen(Option<String>),
    /// The text was written, or the file system refused.
    TextWritten(Result<(), Refusal>),
    /// The codec wrote the image, or failed, with or without a detail.
    ImageEncoded(Result<(), Option<String>>),
}

/// `Event` with its strings as sequences of characters.
pub enum EventView {
    ImageProbed(bool),
    TextProbed(Option<Seq<char>>),
    DestinationChosen(Option<Seq<char>>),
    TextWritten(Result<(), RefusalView>),
    ImageEncoded(Result<(), Option<Seq<char>>>),
}

/// An optional string as an optional sequence of characters.
pub open spec fn text_view(text: Option<String>) -> Option<Seq<char>> {
    match text {
        Some(t) => Some(t@),
        None => None,
    }
}

impl View for Event {
    type V = EventView;

    open spec fn view(&self) -> EventView {
        match *self {
            Event::ImageProbed(found) => EventView::ImageProbed(found),
            Event::TextProbed(text) => EventView::TextProbed(text_view(text)),
            Event::DestinationChosen(path) => EventView::DestinationChosen(text_view(path)),
            Event::TextWritten(Ok(())) => EventView::TextWritten(Ok(())),
            Event::TextWritten(Err(failure)) => EventView::TextWritten(Err(failure@)),
            Event::ImageEncoded(Ok(())) => EventView::ImageEncoded(Ok(())),
            Event::ImageEncoded(Err(detail)) => EventView::ImageEncoded(Err(text_view(detail))),
        }
    }
}

/// What the driver is to do next.
#[derive(Clone, Debug, PartialEq, Eq)]
pub enum Action {
    /// Ask the clipboard for an image; answer with `Event::ImageProbed`.
    ReadImage,
    /// Ask the clipboard for text; answer with `Event::TextProbed`.
    ReadText,
    /// Print the notice and open the picker; answer with `Event::DestinationChosen`.
    ChooseDestination { notice: &'static str, request: PickerRequest },
    /// Create the file and write the text as its bytes; answer with `Event::TextWritten`.
    WriteText { path: String, text: String },
    /// Have the codec write the image in this format; answer with `Event::ImageEncoded`.
    EncodeImage { path: String, format: ImageFormat },
    /// Print the line. The attempt is over.
    Report(StatusLine),
}

/// `Action` with its strings as sequences of characters.
pub enum ActionView {
    ReadImage,
    ReadText,
    ChooseDestination { notice: Seq<char>, request: PickerRequestView },
    WriteText { path: Seq<char>, text: Seq<char> },
    EncodeImage { path: Seq<char>, format: ImageFormat },
    Report(StatusLineView),
}

impl View for Action {
    type V = ActionView;

    open spec fn view(&self) -> ActionView {
        match *self {
            Action::ReadImage => ActionView::ReadImage,
            Action::ReadText => ActionView::ReadText,
            Action::ChooseDestination { notice, request } => ActionView::ChooseDestination {
                notice: notice@,
                request: request@,
            },
            Action::WriteText { path, text } => ActionView::WriteText { path: path@, text: text@ },
            Action::EncodeImage { path, format } => ActionView::EncodeImage {
                path: path@,
                format,
            },
            Action::Report(line) => ActionView::Report(line@),
        }
    }
}

/// How far one save attempt has come.
#[derive(Clone, Debug, PartialEq, Eq)]
pub enum Session {
    /// Nothing is known of the clipboard yet.
    Idle,
    /// The clipboard has no image.
    ImageAbsent,
    /// Content was found; the picker has not answered.
    AwaitingDestination(Content),
    /// A destination was chosen; the write has not ended.
    Writing { content: Content, path: String },
    /// The attempt to save content of this kind is over.
    Finished { kind: ContentKind, outcome: SaveOutcome },
    /// The clipboard has neither image nor text: there was nothing to attempt.
    Unsupported,
}

/// `Session` with its strings as sequences of characters.
pub enum SessionView {
    Idle,
    ImageAbsent,
    AwaitingDestination(ContentView),
    Writing { content: ContentView, path: Seq<char> },
    Finished { kind: ContentKind, outcome: SaveOutcomeView },
    Unsupported,
}

impl View for Session {
    type V = SessionView;

    open spec fn view(&self) -> SessionView {
        match *self {
            Session::Idle => SessionView::Idle,
            Session::ImageAbsent => SessionView::ImageAbsent,
            Session::AwaitingDestination(content) => SessionView::AwaitingDestination(content@),
            Session::Writing { content, path } => SessionView::Writing {
                content: content@,
                path: path@,
            },
            Session::Finished { kind, outcome } => SessionView::Finished {
                kind,
                outcome: outcome@,
            },
            Session::Unsupported => SessionView::Unsupported,
        }
    }
}

/// The reason that stands for a codec failure: its detail, or the fixed
/// sentence where it gave none.
pub open spec fn codec_failure(detail: Option<Seq<char>>) -> FailureReasonView {
    FailureReasonView::Codec {
        detail: match detail {
            Some(d) => d,
            None => CODEC_SILENCE@,
        },
    }
}

impl SessionView {
    /// Whether the attempt is over.
    pub open spec fn is_finished(self) -> bool {
        self is Finished || self is Unsupported
    }

    /// How the attempt ended, once it is over.
    pub open spec fn outcome(self) -> Option<SaveOutcomeView> {
        match self {
            SessionView::Finished { outcome, .. } => Some(outcome),
            SessionView::Unsupported => Some(
                SaveOutcomeView::Failed(FailureReasonView::UnsupportedContent),
            ),
            _ => None,
        }
    }

    /// The one thing to be done in this state.
    pub open spec fn pending(self) -> ActionView {
        match self {
            SessionView::Idle => ActionView::ReadImage,
            SessionView::ImageAbsent => ActionView::ReadText,
            SessionView::AwaitingDestination(content) => ActionView::ChooseDestination {
                notice: notice(content.kind()),
                request: request_for(content.kind()),
            },
            SessionView::Writing { content: ContentView::Text(text), path } => ActionView::WriteText {
                path,
                text,
            },
            SessionView::Writing { content: ContentView::Image, path } => ActionView::EncodeImage {
                path,
                format: format_of_path(path),
            },
            SessionView::Finished { kind, outcome } => ActionView::Report(status(kind, outcome)),
            SessionView::Unsupported => ActionView::Report(
                failure_status(FailureReasonView::UnsupportedContent),
            ),
        }
    }

    /// Whether the event is the answer to the pending action.
    pub open spec fn answered_by(self, event: EventView) -> bool {
        match (self, event) {
            (SessionView::Idle, EventView::ImageProbed(_)) => true,
            (SessionView::ImageAbsent, EventView::TextProbed(_)) => true,
            (SessionView::AwaitingDestination(_), EventView::DestinationChosen(_)) => true,
            (
                SessionView::Writing { content: ContentView::Text(_), .. },
                EventView::TextWritten(_),
            ) => true,
            (
                SessionView::Writing { content: ContentView::Image, .. },
                EventView::ImageEncoded(_),
            ) => true,
            _ => false,
        }
    }

    /// The state after the event. An event that does not answer the pending
    /// action changes nothing.
    pub open spec fn next(self, event: EventView) -> SessionView {
        match (self, event) {
            (SessionView::Idle, EventView::ImageProbed(true)) => SessionView::AwaitingDestination(
                ContentView::Image,
            ),
            (SessionView::Idle, EventView::ImageProbed(false)) => SessionView::ImageAbsent,
            (
                SessionView::ImageAbsent,
                EventView::TextProbed(Some(text)),
            ) => SessionView::AwaitingDestination(ContentView::Text(text)),
            (SessionView::ImageAbsent, EventView::TextProbed(None)) => SessionView::Unsupported,
            (
                SessionView::AwaitingDestination(content),
                EventView::DestinationChosen(Some(path)),
            ) => SessionView::Writing { content, path },
            (
                SessionView::AwaitingDestination(content),
                EventView::DestinationChosen(None),
            ) => SessionView::Finished { kind: content.kind(), outcome: SaveOutcomeView::Canceled },
            (
                SessionView::Writing { content: ContentView::Text(_), path },
                EventView::TextWritten(Ok(())),
            ) => SessionView::Finished {
                kind: ContentKind::Text,
                outcome: SaveOutcomeView::Saved(path),
            },
            (
                SessionView::Writing { content: ContentView::Text(_), .. },
                EventView::TextWritten(Err(failure)),
            ) => SessionView::Finished {
                kind: ContentKind::Text,
                outcome: SaveOutcomeView::Failed(
                    FailureReasonView::Io { stage: failure.stage, detail: failure.detail },
                ),
            },
            (
                SessionView::Writing { content: ContentView::Image, path },
                EventView::ImageEncoded(Ok(())),
            ) => SessionView::Finished {
                kind: ContentKind::Image,
                outcome: SaveOutcomeView::Saved(path),
            },
            (
                SessionView::Writing { content: ContentView::Image, .. },
                EventView::ImageEncoded(Err(detail)),
            ) => SessionView::Finished {
                kind: ContentKind::Image,
                outcome: SaveOutcomeView::Failed(codec_failure(detail)),
            },
            _ => self,
        }
    }
}

impl Session {
    /// A session that has not looked at the clipboard yet.
    pub fn new() -> (session: Session)
        ensures
            session@ == SessionView::Idle,
    {
        Session::Idle
    }

    /// Whether the attempt is over.
    pub fn is_finished(&self) -> (over: bool)
        ensures
            over == self@.is_finished(),
    {
        match self {
            Session::Finished { .. } => true,
            Session::Unsupported => true,
            _ => false,
        }
    }

    /// How the attempt ended: nothing while it is still under way.
    pub fn into_outcome(self) -> (outcome: Option<SaveOutcome>)
        ensures
            match outcome {
                Some(o) => self@.outcome() == Some(o@),
                None => self@.outcome() is None,
            },
    {
        match self {
            Session::Finished { outcome, .. } => Some(outcome),
            Session::Unsupported => Some(SaveOutcome::Failed(FailureReason::UnsupportedContent)),
            _ => None,
        }
    }

    /// The one thing to be done in this state.
    pub fn pending(&self) -> (action: Action)
        ensures
            action@ == self@.pending(),
    {
        match self {
            Session::Idle => Action::ReadImage,
            Session::ImageAbsent => Action::ReadText,
            Session::AwaitingDestination(content) => {
                let kind = content.kind();
                Action::ChooseDestination {
                    notice: detection_notice(kind),
                    request: PickerRequest::for_kind(kind),
                }
            },
            Session::Writing { content: Content::Text(text), path } => Action::WriteText {
                path: path.clone(),
                text: text.clone(),
            },
            Session::Writing { content: Content::Image, path } => Action::EncodeImage {
                path: path.clone(),
                format: infer(path.as_str()),
            },
            Session::Finished { kind, outcome } => Action::Report(status_line(*kind, outcome)),
            Session::Unsupported => Action::Report(
                failure_line(&FailureReason::UnsupportedContent),
            ),
        }
    }

    /// Whether the event is the answer to the pending action.
    pub fn accepts(&self, event: &Event) -> (accepted: bool)
        ensures
            accepted == self@.answered_by(event@),
    {
        match (self, event) {
            (Session::Idle, Event::ImageProbed(_)) => true,
            (Session::ImageAbsent, Event::TextProbed(_)) => true,
            (Session::AwaitingDestination(_), Event::DestinationChosen(_)) => true,
            (Session::Writing { content: Content::Text(_), .. }, Event::TextWritten(_)) => true,
            (Session::Writing { content: Content::Image, .. }, Event::ImageEncoded(_)) => true,
            _ => false,
        }
    }

    /// The state after the event. An event that does not answer the pending
    /// action changes nothing.
    pub fn handle(self, event: Event) -> (after: Session)
        ensures
            after@ == self@.next(event@),
    {
        match (self, event) {
            (Session::Idle, Event::ImageProbed(true)) => Session::AwaitingDestination(
                Content::Image,
            ),
            (Session::Idle, Event::ImageProbed(false)) => Session::ImageAbsent,
            (Session::ImageAbsent, Event::TextProbed(Some(text))) => Session::AwaitingDestination(
                Content::Text(text),
            ),
            (Session::ImageAbsent, Event::TextProbed(None)) => Session::Unsupported,
            (
                Session::AwaitingDestination(content),
                Event::DestinationChosen(Some(path)),
            ) => Session::Writing { content, path },
            (Session::AwaitingDestination(content), Event::DestinationChosen(None)) => {
                Session::Finished { kind: content.kind(), outcome: SaveOutcome::Canceled }
            },
            (
                Session::Writing { content: Content::Text(_), path },
                Event::TextWritten(Ok(())),
            ) => Session::Finished { kind: ContentKind::Text, outcome: SaveOutcome::Saved(path) },
            (
                Session::Writing { content: Content::Text(_), .. },
                Event::TextWritten(Err(failure)),
            ) => Session::Finished {
                kind: ContentKind::Text,
                outcome: SaveOutcome::Failed(
                    FailureReason::Io { stage: failure.stage, detail: failure.detail },
                ),
            },
            (
                Session::Writing { content: Content::Image, path },
                Event::ImageEncoded(Ok(())),
            ) => Session::Finished { kind: ContentKind::Image, outcome: SaveOutcome::Saved(path) },
            (
                Session::Writing { content: Content::Image, .. },
                Event::ImageEncoded(Err(detail)),
            ) => {
                let detail = match detail {
                    Some(d) => d,
                    None => String::from_str(CODEC_SILENCE),
                };
                Session::Finished {
                    kind: ContentKind::Image,
                    outcome: SaveOutcome::Failed(FailureReason::Codec { detail }),
                }
            },
            (session, _) => session,
        }
    }
}

} // verus!
