use std::sync::Arc;

use attachments::media::{ImageFormat, OutgoingMedia};
use attachments::paste_preview::{
    media_label, preview_images, render_file_meta, render_paste_preview, PreviewItem,
};
use attachments::picked::Picked;

fn picked(file_name: &str, mime_type: &str, kind: OutgoingMedia) -> Picked {
    Picked {
        file_name: file_name.to_owned(),
        mime_type: mime_type.to_owned(),
        kind,
        bytes: vec![1, 2, 3],
    }
}

#[test]
fn preview_payloads_keep_picker_order_and_media_identity() {
    let files = vec![
        picked("photo.png", "image/png", OutgoingMedia::Image),
        picked("clip.mp4", "video/mp4", OutgoingMedia::Video),
        picked("notes.pdf", "application/pdf", OutgoingMedia::Document),
    ];

    let images = preview_images(&files);

    assert_eq!(images.len(), files.len());
    assert!(images[0].is_some(), "supported image gets a thumbnail");
    assert!(images[1].is_none(), "video remains an identified file card");
    assert!(
        images[2].is_none(),
        "document remains an identified file card"
    );
    assert_eq!(files[0].file_name, "photo.png");
    assert_eq!(files[1].file_name, "clip.mp4");
    assert_eq!(files[2].file_name, "notes.pdf");
}

#[test]
fn document_kind_wins_over_an_image_mime() {
    let files = [picked("photo.jpg", "image/jpeg", OutgoingMedia::Document)];

    assert!(
        preview_images(&files)[0].is_none(),
        "a document attachment must not render a photo thumbnail"
    );
}

#[test]
fn a_thumbnail_holds_the_file_itself() {
    let files = [picked("photo.jpg", "image/jpeg", OutgoingMedia::Image)];
    let images = preview_images(&files);
    let image = images[0].as_ref().unwrap();
    assert_eq!(image.format, ImageFormat::Jpeg);
    assert_eq!(image.bytes, [1, 2, 3]);
    let files = [picked("photo.heic", "image/heic", OutgoingMedia::Image)];
    assert!(preview_images(&files)[0].is_none());
}

#[test]
fn the_surface_shows_each_file_in_order() {
    let files = [
        picked("photo.png", "image/png", OutgoingMedia::Image),
        picked("clip.mp4", "video/mp4", OutgoingMedia::Video),
    ];
    let images = preview_images(&files);
    let surface = render_paste_preview(&files, &images, true);
    assert_eq!(surface.title, "Send these attachments?");
    assert!(surface.can_send);
    assert_eq!(surface.items.len(), 2);
    match &surface.items[0] {
        PreviewItem::Picture { image, lines } => {
            assert!(Arc::ptr_eq(image, images[0].as_ref().unwrap()));
            assert_eq!(lines.label, "Imagem");
            assert_eq!(lines.name, "photo.png");
            assert_eq!(lines.size, 3);
            assert_eq!(lines.detail("3 B"), "image/png · 3 B");
        }
        PreviewItem::Card { .. } => panic!("a picture is shown"),
    }
    match &surface.items[1] {
        PreviewItem::Card { lines } => {
            assert_eq!(lines.label, "Vídeo");
            assert_eq!(lines.mime_type, "video/mp4");
        }
        PreviewItem::Picture { .. } => panic!("a video has no picture"),
    }

    let one = render_paste_preview(&files[..1], &images, false);
    assert_eq!(one.title, "Send this attachment?");
    assert_eq!(one.items.len(), 1);
    assert!(!one.can_send);
    assert_eq!(render_paste_preview(&files, &images[..1], true).items.len(), 1);
    assert_eq!(render_paste_preview(&[], &[], true).title, "Send these attachments?");
}

#[test]
fn a_document_is_labelled_as_one() {
    assert_eq!(media_label(OutgoingMedia::Document), "Documento");
    let lines = render_file_meta(&picked("a", "text/plain", OutgoingMedia::Document));
    assert_eq!(lines.label, "Documento");
    assert_eq!(lines.name, "a");
}
