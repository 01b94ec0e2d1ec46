//! What the clipboard was found to hold.

use vstd::prelude::*;

verus! {

/// The kinds of clipboard content that can be saved.
#[derive(Clone, Copy, Debug, PartialEq, Eq, Structural)]
pub enum ContentKind {
    Image,
    Text,
}

/// The payload that one save attempt is about. The pixels of an image stay
/// with whoever read them from the clipboard; text is carried along.
#[derive(Clone, Debug, PartialEq, Eq)]
pub enum Content {
    Image,
    Text(String),
}

/// `Content` with its text as a sequence of characters.
pub enum ContentView {
    Image,
    Text(Seq<char>),
}

impl ContentView {
    /// The kind of the content.
    pub open spec fn kind(self) -> ContentKind {
        match self {
            ContentView::Image => ContentKind::Image,
            ContentView::Text(_) => ContentKind::Text,
        }
    }
}

impl View for Content {
    type V = ContentView;

    open spec fn view(&self) -> ContentView {
        match *self {
            Content::Image => ContentView::Image,
            Content::Text(text) => ContentView::Text(text@),
        }
    }
}

impl Content {
    /// The kind of the content.
    pub fn kind(&self) -> (kind: ContentKind)
        ensures
            kind == self@.kind(),
    {
        match self {
            Content::Image => ContentKind::Image,
            Content::Text(_) => ContentKind::Text,
        }
    }
}

/// The content that a clipboard offers, given whether it shows an image and
/// which text it shows: the image wherever there is one, else the text.
pub open spec fn detected(image: bool, text: Option<Seq<char>>) -> Option<ContentView> {
    if image {
        Some(ContentView::Image)
    } else {
        match text {
            Some(t) => Some(ContentView::Text(t)),
            None => None,
        }
    }
}

} // verus!
