//! The on-disk encoding of an image, chosen from the destination's extension.

use vstd::prelude::*;
use crate::path::{extension, extension_of};
use crate::text::{eq_ignoring_case, fold};

verus! {

/// An encoding that the image codec is asked for.
#[derive(Clone, Copy, Debug, PartialEq, Eq, Structural)]
pub enum ImageFormat {
    Png,
    Jpeg,
}

impl ImageFormat {
    /// The name by which the codec knows the format.
    pub open spec fn spec_identifier(self) -> Seq<char> {
        match self {
            ImageFormat::Png => seq!['p', 'n', 'g'],
            ImageFormat::Jpeg => seq!['j', 'p', 'e', 'g'],
        }
    }

    /// The name by which the codec knows the format.
    pub fn identifier(self) -> (name: &'static str)
        ensures
            name@ == self.spec_identifier(),
    {
        match self {
            ImageFormat::Png => {
                proof {
                    reveal_strlit("png");
                }
                "png"
            },
            ImageFormat::Jpeg => {
                proof {
                    reveal_strlit("jpeg");
                }
                "jpeg"
            },
        }
    }
}

/// The format that an extension stands for, letter case set aside:
/// `png` for PNG, `jpg` and `jpeg` for JPEG, none for anything else.
pub open spec fn format_of_extension(ext: Seq<char>) -> Option<ImageFormat> {
    let e = fold(ext);
    if e == seq!['p', 'n', 'g'] {
        Some(ImageFormat::Png)
    } else if e == seq!['j', 'p', 'g'] || e == seq!['j', 'p', 'e', 'g'] {
        Some(ImageFormat::Jpeg)
    } else {
        None
    }
}

/// The format in which an image is written to `path`: the one that the
/// extension stands for, and PNG where there is no extension or it stands for none.
pub open spec fn format_of_path(path: Seq<char>) -> ImageFormat {
    match extension(path) {
        Some(ext) => match format_of_extension(ext) {
            Some(format) => format,
            None => ImageFormat::Png,
        },
        None => ImageFormat::Png,
    }
}

/// The format that the extension `ext` stands for, if any.
pub fn recognize(ext: &str) -> (format: Option<ImageFormat>)
    ensures
        format == format_of_extension(ext@),
{
    proof {
        reveal_strlit("png");
        reveal_strlit("jpg");
        reveal_strlit("jpeg");
        assert(fold("png"@) =~= seq!['p', 'n', 'g']);
        assert(fold("jpg"@) =~= seq!['j', 'p', 'g']);
        assert(fold("jpeg"@) =~= seq!['j', 'p', 'e', 'g']);
    }
    if eq_ignoring_case(ext, "png") {
        Some(ImageFormat::Png)
    } else if eq_ignoring_case(ext, "jpg") || eq_ignoring_case(ext, "jpeg") {
        Some(ImageFormat::Jpeg)
    } else {
        None
    }
}

/// The format in which an image is written to `path`.
pub fn infer(path: &str) -> (format: ImageFormat)
    ensures
        format == format_of_path(path@),
        extension(path@) matches Some(ext) && (fold(ext) == seq!['j', 'p', 'g'] || fold(ext)
            == seq!['j', 'p', 'e', 'g']) ==> format == ImageFormat::Jpeg,
        extension(path@) is None ==> format == ImageFormat::Png,
        extension(path@) matches Some(ext) && format_of_extension(ext) is None ==> format
            == ImageFormat::Png,
{
    match extension_of(path) {
        Some(ext) => match recognize(ext) {
            Some(format) => format,
            None => ImageFormat::Png,
        },
        None => ImageFormat::Png,
    }
}

} // verus!
