//! What holds of every save attempt.
//!
//! The first part speaks of any sequence of events. The second part speaks of
//! whole attempts: a `World` fixes what the clipboard, the picker, the file
//! system and the codec would answer, and the session is driven against it.

use vstd::prelude::*;
use crate::content::{detected, ContentKind, ContentView};
use crate::format::{format_of_extension, format_of_path, ImageFormat};
use crate::outcome::{FailureReasonView, SaveOutcomeView};
use crate::path::extension;
use crate::picker::request_for;
use crate::report::{failure_status, notice, status, StatusLineView, Stream};
use crate::session::{codec_failure, ActionView, EventView, RefusalView, SessionView};
use crate::text::fold;

verus! {

/// How many answers a session has taken, counting an absent image and absent
/// text as one step each.
pub open spec fn progress(session: SessionView) -> nat {
    match session {
        SessionView::Idle => 0,
        SessionView::ImageAbsent => 1,
        SessionView::AwaitingDestination(_) => 2,
        SessionView::Writing { .. } => 3,
        SessionView::Finished { .. } => 4,
        SessionView::Unsupported => 4,
    }
}

/// The state after a sequence of events, taken in order.
pub open spec fn run(session: SessionView, events: Seq<EventView>) -> SessionView
    decreases events.len(),
{
    if events.len() == 0 {
        session
    } else {
        run(session, events.drop_last()).next(events.last())
    }
}

/// An event either answers the pending action and takes the session forward,
/// or leaves it as it is. A finished session is answered by nothing, so there
/// is no second attempt.
pub proof fn law_events_only_advance(session: SessionView, event: EventView)
    ensures
        session.answered_by(event) ==> progress(session.next(event)) > progress(session),
        !session.answered_by(event) ==> session.next(event) == session,
        session.is_finished() ==> !session.answered_by(event),
        session.is_finished() <==> session.pending() is Report,
        session.is_finished() <==> session.outcome() is Some,
{
}

/// Whatever events arrive, a session that has ended stays as it ended.
pub proof fn law_finished_stays(session: SessionView, events: Seq<EventView>)
    requires
        session.is_finished(),
    ensures
        run(session, events) == session,
    decreases events.len(),
{
    if events.len() > 0 {
        law_finished_stays(session, events.drop_last());
    }
}

/// Whatever events arrive, the clipboard is read once: once content was
/// found, the clipboard is not asked again, every later state is about that
/// very content, and the attempt ends as one to save content of that kind.
pub proof fn law_content_is_kept(content: ContentView, events: Seq<EventView>)
    ensures
        match run(SessionView::AwaitingDestination(content), events) {
            SessionView::AwaitingDestination(c) => c == content,
            SessionView::Writing { content: c, .. } => c == content,
            SessionView::Finished { kind, .. } => kind == content.kind(),
            _ => false,
        },
        !(run(SessionView::AwaitingDestination(content), events).pending() is ReadImage),
        !(run(SessionView::AwaitingDestination(content), events).pending() is ReadText),
    decreases events.len(),
{
    if events.len() > 0 {
        law_content_is_kept(content, events.drop_last());
    }
}

/// A dismissed picker ends the attempt as `Canceled`, whatever the content,
/// and whatever events arrive afterwards no write is ever ordered.
pub proof fn law_dismissal_cancels(content: ContentView, events: Seq<EventView>)
    ensures
        ({
            let dismissed = (SessionView::AwaitingDestination(content)).next(
                EventView::DestinationChosen(None),
            );
            &&& dismissed == (SessionView::Finished {
                kind: content.kind(),
                outcome: SaveOutcomeView::Canceled,
            })
            &&& run(dismissed, events) == dismissed
            &&& run(dismissed, events).pending() is Report
        }),
{
    law_finished_stays(
        (SessionView::AwaitingDestination(content)).next(EventView::DestinationChosen(None)),
        events,
    );
}

/// Whatever events arrive, at most one write is ordered: once a destination
/// was chosen, the session waits for that one write or has ended with what
/// came of it, and a saved file is the chosen one.
pub proof fn law_one_write(content: ContentView, path: Seq<char>, events: Seq<EventView>)
    ensures
        match run(SessionView::Writing { content, path }, events) {
            SessionView::Writing { content: c, path: p } => c == content && p == path,
            SessionView::Finished { kind, outcome } => kind == content.kind() && (outcome
                matches SaveOutcomeView::Saved(p) ==> p == path) && outcome
                != SaveOutcomeView::Canceled,
            _ => false,
        },
    decreases events.len(),
{
    if events.len() > 0 {
        law_one_write(content, path, events.drop_last());
    }
}

/// The codec is asked for the format that the chosen path's extension stands
/// for: JPEG for `jpg` and `jpeg` in any letter case, never PNG; and PNG for a
/// path without extension or with one that stands for no format.
pub proof fn law_codec_format(path: Seq<char>)
    ensures
        (SessionView::Writing { content: ContentView::Image, path }).pending()
            == (ActionView::EncodeImage { path, format: format_of_path(path) }),
        extension(path) matches Some(ext) && (fold(ext) == seq!['j', 'p', 'g'] || fold(ext)
            == seq!['j', 'p', 'e', 'g']) ==> format_of_path(path) == ImageFormat::Jpeg,
        extension(path) is None ==> format_of_path(path) == ImageFormat::Png,
        extension(path) matches Some(ext) && format_of_extension(ext) is None ==> format_of_path(
            path,
        ) == ImageFormat::Png,
        ImageFormat::Jpeg.spec_identifier() != ImageFormat::Png.spec_identifier(),
{
}

/// Letter case does not count in an extension: two extensions that differ in
/// ASCII case only stand for the same format, and so do two paths with such
/// extensions.
pub proof fn law_letter_case_is_ignored(a: Seq<char>, b: Seq<char>)
    ensures
        fold(a) == fold(b) ==> format_of_extension(a) == format_of_extension(b),
        (extension(a) matches Some(x) && extension(b) matches Some(y) && fold(x) == fold(y))
            ==> format_of_path(a) == format_of_path(b),
{
}

/// What the collaborators of one attempt would answer if asked.
pub struct World {
    /// Whether the clipboard shows an image.
    pub image: bool,
    /// The text that the clipboard shows, if any.
    pub text: Option<Seq<char>>,
    /// The path that the user would choose; none if the user would dismiss the picker.
    pub choice: Option<Seq<char>>,
    /// What would come of writing the text.
    pub text_write: Result<(), RefusalView>,
    /// What would come of encoding the image.
    pub encoding: Result<(), Option<Seq<char>>>,
}

/// The world's answer to an action. A report asks nothing.
pub open spec fn answer(world: World, action: ActionView) -> Option<EventView> {
    match action {
        ActionView::ReadImage => Some(EventView::ImageProbed(world.image)),
        ActionView::ReadText => Some(EventView::TextProbed(world.text)),
        ActionView::ChooseDestination { .. } => Some(EventView::DestinationChosen(world.choice)),
        ActionView::WriteText { .. } => Some(EventView::TextWritten(world.text_write)),
        ActionView::EncodeImage { .. } => Some(EventView::ImageEncoded(world.encoding)),
        ActionView::Report(_) => None,
    }
}

/// The state that a driver reaches from `session` in at most `steps` steps,
/// each step performing the pending action in `world` and handing back the answer.
pub open spec fn drive(world: World, session: SessionView, steps: nat) -> SessionView
    decreases steps,
{
    if steps == 0 {
        session
    } else {
        match answer(world, session.pending()) {
            Some(event) => drive(world, session.next(event), (steps - 1) as nat),
            None => session,
        }
    }
}

/// The actions that the driver performs on the way, in order. The closing
/// report is not among them.
pub open spec fn performed(world: World, session: SessionView, steps: nat) -> Seq<ActionView>
    decreases steps,
{
    if steps == 0 {
        Seq::empty()
    } else {
        match answer(world, session.pending()) {
            Some(event) => seq![session.pending()] + performed(
                world,
                session.next(event),
                (steps - 1) as nat,
            ),
            None => Seq::empty(),
        }
    }
}

/// The longest attempt takes four answers.
pub open spec fn enough() -> nat {
    4
}

/// How an attempt in `world` is to end.
pub open spec fn due(world: World) -> SaveOutcomeView {
    match detected(world.image, world.text) {
        None => SaveOutcomeView::Failed(FailureReasonView::UnsupportedContent),
        Some(content) => match world.choice {
            None => SaveOutcomeView::Canceled,
            Some(path) => match content {
                ContentView::Text(_) => match world.text_write {
                    Ok(_) => SaveOutcomeView::Saved(path),
                    Err(failure) => SaveOutcomeView::Failed(
                        FailureReasonView::Io { stage: failure.stage, detail: failure.detail },
                    ),
                },
                ContentView::Image => match world.encoding {
                    Ok(_) => SaveOutcomeView::Saved(path),
                    Err(detail) => SaveOutcomeView::Failed(codec_failure(detail)),
                },
            },
        },
    }
}

/// The write that is ordered for `content` at `path`.
pub open spec fn write_order(content: ContentView, path: Seq<char>) -> ActionView {
    (SessionView::Writing { content, path }).pending()
}

/// The actions that an attempt in `world` is to perform: the clipboard is
/// asked for an image and, only if it has none, for text; the picker is asked
/// only if content was found; a write is ordered only if a path was chosen.
pub open spec fn script(world: World) -> Seq<ActionView> {
    let probes = if world.image {
        seq![ActionView::ReadImage]
    } else {
        seq![ActionView::ReadImage, ActionView::ReadText]
    };
    match detected(world.image, world.text) {
        None => probes,
        Some(content) => {
            let ask = (SessionView::AwaitingDestination(content)).pending();
            match world.choice {
                None => probes + seq![ask],
                Some(path) => probes + seq![ask, write_order(content, path)],
            }
        },
    }
}

/// The line that closes an attempt in `world`.
pub open spec fn due_report(world: World) -> StatusLineView {
    match detected(world.image, world.text) {
        None => failure_status(FailureReasonView::UnsupportedContent),
        Some(content) => status(content.kind(), due(world)),
    }
}

/// Every attempt ends within four answers, ends as `due` says with the line
/// for that outcome as its report, has performed exactly the actions of
/// `script`, and more steps change nothing.
pub proof fn law_attempt(world: World, steps: nat)
    requires
        steps >= enough(),
    ensures
        drive(world, SessionView::Idle, steps).is_finished(),
        drive(world, SessionView::Idle, steps).outcome() == Some(due(world)),
        drive(world, SessionView::Idle, steps).pending() == ActionView::Report(due_report(world)),
        drive(world, SessionView::Idle, steps) == drive(world, SessionView::Idle, enough()),
        performed(world, SessionView::Idle, steps) == script(world),
{
    reveal_with_fuel(drive, 6);
    reveal_with_fuel(performed, 6);
}

/// An image comes first. Where the clipboard shows an image, with or without
/// text beside it, the clipboard is never asked for text, the picker is asked
/// for the destination of an image, no text is written, and what ends is an
/// attempt to save an image.
pub proof fn law_image_has_priority(world: World, steps: nat)
    requires
        world.image,
    ensures
        detected(world.image, world.text) == Some(ContentView::Image),
        SessionView::Idle.next(EventView::ImageProbed(true)) == SessionView::AwaitingDestination(
            ContentView::Image,
        ),
        forall|i: int|
            0 <= i < performed(world, SessionView::Idle, steps).len() ==> {
                let action = #[trigger] performed(world, SessionView::Idle, steps)[i];
                !(action is ReadText) && !(action is WriteText)
            },
        steps >= 2 ==> performed(world, SessionView::Idle, steps)[1]
            == (ActionView::ChooseDestination {
            notice: notice(ContentKind::Image),
            request: request_for(ContentKind::Image),
        }),
        steps >= enough() ==> (drive(world, SessionView::Idle, steps) matches SessionView::Finished {
            kind,
            ..
        } && kind == ContentKind::Image),
{
    reveal_with_fuel(drive, 6);
    reveal_with_fuel(performed, 6);
}

/// An empty clipboard ends the attempt at once. Where the clipboard shows
/// neither image nor text, the outcome is the failure `UnsupportedContent`,
/// and nothing was done but to ask the clipboard twice: the picker was not
/// opened and no write was ordered.
pub proof fn law_empty_clipboard(world: World, steps: nat)
    requires
        !world.image,
        world.text is None,
    ensures
        steps >= 2 ==> drive(world, SessionView::Idle, steps) == SessionView::Unsupported,
        steps >= 2 ==> drive(world, SessionView::Idle, steps).outcome() == Some(
            SaveOutcomeView::Failed(FailureReasonView::UnsupportedContent),
        ),
        steps >= 2 ==> performed(world, SessionView::Idle, steps) == seq![
            ActionView::ReadImage,
            ActionView::ReadText,
        ],
        forall|i: int|
            0 <= i < performed(world, SessionView::Idle, steps).len() ==> {
                let action = #[trigger] performed(world, SessionView::Idle, steps)[i];
                action is ReadImage || action is ReadText
            },
{
    reveal_with_fuel(drive, 4);
    reveal_with_fuel(performed, 4);
}

/// A dismissed picker cancels the attempt. Where content was found and the
/// user chooses no destination, the outcome is `Canceled` and no write was
/// ordered, of text or of an image.
pub proof fn law_dismissed_picker(world: World, steps: nat)
    requires
        detected(world.image, world.text) is Some,
        world.choice is None,
    ensures
        steps >= enough() ==> drive(world, SessionView::Idle, steps).outcome() == Some(
            SaveOutcomeView::Canceled,
        ),
        forall|i: int|
            0 <= i < performed(world, SessionView::Idle, steps).len() ==> {
                let action = #[trigger] performed(world, SessionView::Idle, steps)[i];
                !(action is WriteText) && !(action is EncodeImage)
            },
{
    reveal_with_fuel(drive, 6);
    reveal_with_fuel(performed, 6);
}

/// The text that is written is the text that was read. Where the clipboard
/// shows text and no image and the user chooses a path, the one write that is
/// ordered carries that path and that text, character for character, and the
/// attempt ends as `Saved` with that path if the file system accepts it.
pub proof fn law_text_is_written_verbatim(
    world: World,
    steps: nat,
    text: Seq<char>,
    path: Seq<char>,
)
    requires
        !world.image,
        world.text == Some(text),
        world.choice == Some(path),
        steps >= enough(),
    ensures
        performed(world, SessionView::Idle, steps).len() == 4,
        performed(world, SessionView::Idle, steps)[3] == (ActionView::WriteText { path, text }),
        world.text_write is Ok ==> drive(world, SessionView::Idle, steps).outcome() == Some(
            SaveOutcomeView::Saved(path),
        ),
{
    reveal_with_fuel(drive, 6);
    reveal_with_fuel(performed, 6);
}

/// No failure goes unreported. Where the file system refuses the text, at
/// creation or while writing, the outcome is `Failed` with the file system's
/// own words, and the closing report puts them on the error stream. The same
/// holds of the codec and an image.
pub proof fn law_failure_is_reported(world: World, steps: nat, path: Seq<char>)
    requires
        detected(world.image, world.text) is Some,
        world.choice == Some(path),
        steps >= enough(),
    ensures
        !world.image ==> (world.text_write matches Err(failure) ==> drive(
            world,
            SessionView::Idle,
            steps,
        ).outcome() == Some(
            SaveOutcomeView::Failed(
                FailureReasonView::Io { stage: failure.stage, detail: failure.detail },
            ),
        )),
        world.image ==> (world.encoding matches Err(detail) ==> drive(
            world,
            SessionView::Idle,
            steps,
        ).outcome() == Some(SaveOutcomeView::Failed(codec_failure(detail)))),
        due(world) matches SaveOutcomeView::Failed(reason) ==> {
            let report = failure_status(reason);
            &&& drive(world, SessionView::Idle, steps).pending() == ActionView::Report(report)
            &&& report.stream == Stream::Stderr
            &&& reason matches FailureReasonView::Io { detail, .. } ==> report.text.subrange(
                report.text.len() - detail.len(),
                report.text.len() as int,
            ) == detail
            &&& reason matches FailureReasonView::Codec { detail } ==> report.text.subrange(
                report.text.len() - detail.len(),
                report.text.len() as int,
            ) == detail
        },
{
    law_attempt(world, steps);
}

} // verus!
