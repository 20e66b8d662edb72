use attachments::media::{kind_for, mime_to_image_format, ImageFormat, OutgoingMedia};
use attachments::text::{begins_with, holds_text, same_text};

#[test]
fn an_automatic_picture_can_be_shown() {
    for mime_type in ["image/jpeg", "image/png", "image/gif", "image/webp"] {
        assert_eq!(kind_for(mime_type), OutgoingMedia::Image);
        assert!(mime_to_image_format(mime_type).is_some());
    }
}

#[test]
fn a_kind_follows_the_mime_type() {
    assert_eq!(kind_for("video/mp4"), OutgoingMedia::Video);
    assert_eq!(kind_for("video/"), OutgoingMedia::Video);
    assert_eq!(kind_for("video"), OutgoingMedia::Document);
    assert_eq!(kind_for("application/pdf"), OutgoingMedia::Document);
    assert_eq!(kind_for(""), OutgoingMedia::Document);
    assert_eq!(kind_for("image/png "), OutgoingMedia::Document);
}

#[test]
fn a_format_follows_the_mime_type() {
    assert_eq!(mime_to_image_format("image/png"), Some(ImageFormat::Png));
    assert_eq!(mime_to_image_format("image/jpeg"), Some(ImageFormat::Jpeg));
    assert_eq!(mime_to_image_format("image/webp"), Some(ImageFormat::Webp));
    assert_eq!(mime_to_image_format("image/gif"), Some(ImageFormat::Gif));
    assert_eq!(mime_to_image_format("image/svg+xml"), Some(ImageFormat::Svg));
    assert_eq!(mime_to_image_format("image/bmp"), Some(ImageFormat::Bmp));
    assert_eq!(mime_to_image_format("image/tiff"), Some(ImageFormat::Tiff));
    assert_eq!(mime_to_image_format("image/heic"), None);
}

#[test]
fn text_is_compared_by_its_characters() {
    assert!(same_text("Vídeo", "Vídeo"));
    assert!(!same_text("Vídeo", "Video"));
    assert!(!same_text("a", "ab"));
    assert!(begins_with("Vídeo", "Ví"));
    assert!(!begins_with("V", "Ví"));
    assert!(begins_with("x", ""));
    assert!(holds_text(&Some("chat".to_string()), "chat"));
    assert!(!holds_text(&None, ""));
}
