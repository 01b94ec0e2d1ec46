//! What the destination picker is asked to show.

use vstd::prelude::*;
use crate::content::ContentKind;

verus! {

/// How a filter tells the files it shows.
#[derive(Clone, Copy, Debug, PartialEq, Eq)]
pub enum FilterRule {
    /// By a pattern on the file name.
    Pattern(&'static str),
    /// By the type of the file's content.
    MimeType(&'static str),
}

/// `FilterRule` with its text as a sequence of characters.
pub enum FilterRuleView {
    Pattern(Seq<char>),
    MimeType(Seq<char>),
}

impl View for FilterRule {
    type V = FilterRuleView;

    open spec fn view(&self) -> FilterRuleView {
        match *self {
            FilterRule::Pattern(p) => FilterRuleView::Pattern(p@),
            FilterRule::MimeType(m) => FilterRuleView::MimeType(m@),
        }
    }
}

/// One entry of the picker's list of file types. The list is advice to the
/// user: it does not decide the format in which an image is written.
#[derive(Clone, Copy, Debug, PartialEq, Eq)]
pub struct FileFilter {
    pub label: &'static str,
    pub rule: FilterRule,
}

/// `FileFilter` with its texts as sequences of characters.
pub struct FileFilterView {
    pub label: Seq<char>,
    pub rule: FilterRuleView,
}

impl View for FileFilter {
    type V = FileFilterView;

    open spec fn view(&self) -> FileFilterView {
        FileFilterView { label: self.label@, rule: self.rule@ }
    }
}

/// A request to the destination picker.
#[derive(Clone, Debug, PartialEq, Eq)]
pub struct PickerRequest {
    /// The heading of the picker.
    pub title: &'static str,
    /// The file name that the picker suggests.
    pub default_name: &'static str,
    /// The file types that the picker offers, in this order.
    pub filters: Vec<FileFilter>,
}

/// `PickerRequest` with its texts as sequences of characters and its filters
/// as a sequence.
pub struct PickerRequestView {
    pub title: Seq<char>,
    pub default_name: Seq<char>,
    pub filters: Seq<FileFilterView>,
}

impl View for PickerRequest {
    type V = PickerRequestView;

    open spec fn view(&self) -> PickerRequestView {
        PickerRequestView {
            title: self.title@,
            default_name: self.default_name@,
            filters: Seq::new(self.filters@.len(), |i: int| self.filters@[i]@),
        }
    }
}

/// The request that goes out for content of the given kind: for text, the
/// name `clipboard_text.txt` and a filter for text files; for an image, the
/// name `clipboard_image.png` and filters for PNG and for JPEG.
pub open spec fn request_for(kind: ContentKind) -> PickerRequestView {
    match kind {
        ContentKind::Text => PickerRequestView {
            title: "Save Text File"@,
            default_name: "clipboard_text.txt"@,
            filters: seq![
                FileFilterView {
                    label: "Text Files (*.txt)"@,
                    rule: FilterRuleView::Pattern("*.txt"@),
                },
            ],
        },
        ContentKind::Image => PickerRequestView {
            title: "Save Image File"@,
            default_name: "clipboard_image.png"@,
            filters: seq![
                FileFilterView {
                    label: "PNG Image (*.png)"@,
                    rule: FilterRuleView::MimeType("image/png"@),
                },
                FileFilterView {
                    label: "JPEG Image (*.jpg, *.jpeg)"@,
                    rule: FilterRuleView::MimeType("image/jpeg"@),
                },
            ],
        },
    }
}

impl PickerRequest {
    /// The request that goes out for content of the given kind.
    pub fn for_kind(kind: ContentKind) -> (request: PickerRequest)
        ensures
            request@ == request_for(kind),
    {
        let mut filters: Vec<FileFilter> = Vec::new();
        let request = match kind {
            ContentKind::Text => {
                filters.push(
                    FileFilter {
                        label: "Text Files (*.txt)",
                        rule: FilterRule::Pattern("*.txt"),
                    },
                );
                PickerRequest {
                    title: "Save Text File",
                    default_name: "clipboard_text.txt",
                    filters,
                }
            },
            ContentKind::Image => {
                filters.push(
                    FileFilter {
                        label: "PNG Image (*.png)",
                        rule: FilterRule::MimeType("image/png"),
                    },
                );
                filters.push(
                    FileFilter {
                        label: "JPEG Image (*.jpg, *.jpeg)",
                        rule: FilterRule::MimeType("image/jpeg"),
                    },
                );
                PickerRequest {
                    title: "Save Image File",
                    default_name: "clipboard_image.png",
                    filters,
                }
            },
        };
        assert(request@.filters =~= request_for(kind).filters);
        request
    }
}

} // verus!
