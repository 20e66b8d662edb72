//! What kind of media a file is sent as, and what is drawn for it.

use vstd::prelude::*;

use crate::text::{begins_with, same_text};

verus! {

/// What a file goes out as.
#[derive(Clone, Copy, PartialEq, Eq, Debug, Structural)]
pub enum OutgoingMedia {
    Image,
    Video,
    Document,
}

/// What a message's media is drawn as.
#[derive(Clone, Copy, PartialEq, Eq, Debug, Structural)]
pub enum MediaType {
    Image,
    Video,
    Document,
}

/// The MIME types of the pictures that every client draws.
pub open spec fn drawn_everywhere(mime_type: Seq<char>) -> bool {
    ||| mime_type == "image/jpeg"@
    ||| mime_type == "image/png"@
    ||| mime_type == "image/gif"@
    ||| mime_type == "image/webp"@
}

/// What a file of this MIME type goes out as when nobody chose a category.
pub open spec fn kind_of(mime_type: Seq<char>) -> OutgoingMedia {
    if drawn_everywhere(mime_type) {
        OutgoingMedia::Image
    } else if "video/"@.is_prefix_of(mime_type) {
        OutgoingMedia::Video
    } else {
        OutgoingMedia::Document
    }
}

/// The kind a file goes out as, from its MIME type alone.
///
/// A picture in a format that the far end does not draw goes as a document,
/// so that the recipient gets a file to open instead of a blank bubble.
pub fn kind_for(mime_type: &str) -> (kind: OutgoingMedia)
    ensures
        kind == kind_of(mime_type@),
{
    if same_text(mime_type, "image/jpeg") || same_text(mime_type, "image/png") || same_text(
        mime_type,
        "image/gif",
    ) || same_text(mime_type, "image/webp") {
        OutgoingMedia::Image
    } else if begins_with(mime_type, "video/") {
        OutgoingMedia::Video
    } else {
        OutgoingMedia::Document
    }
}

/// The formats in which a picture can be shown here.
#[derive(Clone, Copy, PartialEq, Eq, Debug, Structural)]
pub enum ImageFormat {
    Png,
    Jpeg,
    Webp,
    Gif,
    Svg,
    Bmp,
    Tiff,
}

/// The format that a MIME type names, among those that can be shown here.
pub open spec fn format_of(mime_type: Seq<char>) -> Option<ImageFormat> {
    if mime_type == "image/png"@ {
        Some(ImageFormat::Png)
    } else if mime_type == "image/jpeg"@ {
        Some(ImageFormat::Jpeg)
    } else if mime_type == "image/webp"@ {
        Some(ImageFormat::Webp)
    } else if mime_type == "image/gif"@ {
        Some(ImageFormat::Gif)
    } else if mime_type == "image/svg+xml"@ {
        Some(ImageFormat::Svg)
    } else if mime_type == "image/bmp"@ {
        Some(ImageFormat::Bmp)
    } else if mime_type == "image/tiff"@ {
        Some(ImageFormat::Tiff)
    } else {
        None
    }
}

/// The format that a MIME type names, among those that can be shown here.
pub fn mime_to_image_format(mime_type: &str) -> (format: Option<ImageFormat>)
    ensures
        format == format_of(mime_type@),
{
    if same_text(mime_type, "image/png") {
        Some(ImageFormat::Png)
    } else if same_text(mime_type, "image/jpeg") {
        Some(ImageFormat::Jpeg)
    } else if same_text(mime_type, "image/webp") {
        Some(ImageFormat::Webp)
    } else if same_text(mime_type, "image/gif") {
        Some(ImageFormat::Gif)
    } else if same_text(mime_type, "image/svg+xml") {
        Some(ImageFormat::Svg)
    } else if same_text(mime_type, "image/bmp") {
        Some(ImageFormat::Bmp)
    } else if same_text(mime_type, "image/tiff") {
        Some(ImageFormat::Tiff)
    } else {
        None
    }
}

/// Law: every picture that goes out as one when nobody chose a category is in
/// a format that can be shown here.
pub proof fn an_automatic_picture_can_be_shown(mime_type: Seq<char>)
    requires
        kind_of(mime_type) is Image,
    ensures
        format_of(mime_type) is Some,
{
}

/// Law: a picture in any format but the ones drawn everywhere goes out as a
/// document when nobody chose a category.
pub proof fn an_undrawable_picture_goes_as_a_document(mime_type: Seq<char>)
    requires
        "image/"@.is_prefix_of(mime_type),
        !drawn_everywhere(mime_type),
    ensures
        kind_of(mime_type) is Document,
{
    reveal_strlit("image/");
    reveal_strlit("video/");
    if "video/"@.is_prefix_of(mime_type) {
        assert("image/"@[0] == mime_type[0]);
        assert("video/"@[0] == mime_type[0]);
    }
}

/// The types that a file can be sent or shown as are told apart by their text.
proof fn lemma_mime_types_differ()
    ensures
        "image/png"@.len() == 9,
        "image/gif"@.len() == 9,
        "image/bmp"@.len() == 9,
        "image/jpeg"@.len() == 10,
        "image/webp"@.len() == 10,
        "image/tiff"@.len() == 10,
        "image/svg+xml"@.len() == 13,
        "image/png"@[6] == 'p',
        "image/gif"@[6] == 'g',
        "image/bmp"@[6] == 'b',
        "image/jpeg"@[6] == 'j',
        "image/webp"@[6] == 'w',
        "image/tiff"@[6] == 't',
        "image/png"@[0] == 'i',
        "image/gif"@[0] == 'i',
        "image/jpeg"@[0] == 'i',
        "image/webp"@[0] == 'i',
{
    reveal_strlit("image/png");
    reveal_strlit("image/gif");
    reveal_strlit("image/bmp");
    reveal_strlit("image/jpeg");
    reveal_strlit("image/webp");
    reveal_strlit("image/tiff");
    reveal_strlit("image/svg+xml");
}

/// Law: a file goes out as a picture when nobody chose a category just where
/// its type is one of the four that every client draws.
pub proof fn four_types_go_out_as_pictures(mime_type: Seq<char>)
    ensures
        kind_of(mime_type) is Image <==> (mime_type == "image/jpeg"@ || mime_type == "image/png"@
            || mime_type == "image/gif"@ || mime_type == "image/webp"@),
{
}

/// Law: every file of a type under `video/`, and no other, goes out as a video
/// when nobody chose a category.
pub proof fn every_video_type_goes_out_as_a_video(mime_type: Seq<char>)
    ensures
        kind_of(mime_type) is Video <==> (mime_type.len() >= 6 && mime_type.subrange(0, 6)
            == seq!['v', 'i', 'd', 'e', 'o', '/']),
        kind_of(mime_type) is Document <==> !(kind_of(mime_type) is Image) && !(kind_of(
            mime_type,
        ) is Video),
{
    lemma_mime_types_differ();
    reveal_strlit("video/");
    assert("video/"@ =~= seq!['v', 'i', 'd', 'e', 'o', '/']);
    if "video/"@.is_prefix_of(mime_type) {
        assert(mime_type[0] == "video/"@[0]);
    }
}

/// Law: each format is shown for its own type and for no other.
pub proof fn each_format_has_its_own_type(mime_type: Seq<char>)
    ensures
        format_of(mime_type) == Some(ImageFormat::Png) <==> mime_type == "image/png"@,
        format_of(mime_type) == Some(ImageFormat::Jpeg) <==> mime_type == "image/jpeg"@,
        format_of(mime_type) == Some(ImageFormat::Webp) <==> mime_type == "image/webp"@,
        format_of(mime_type) == Some(ImageFormat::Gif) <==> mime_type == "image/gif"@,
        format_of(mime_type) == Some(ImageFormat::Svg) <==> mime_type == "image/svg+xml"@,
        format_of(mime_type) == Some(ImageFormat::Bmp) <==> mime_type == "image/bmp"@,
        format_of(mime_type) == Some(ImageFormat::Tiff) <==> mime_type == "image/tiff"@,
{
    lemma_mime_types_differ();
}

} // verus!
