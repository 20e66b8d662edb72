use attachments::attaching::{
    Attached, Confirmation, Delivery, Destination, Preparation, WhatsAppApp, LOCAL_ID_PREFIX,
};
use attachments::echo::{echo_of, echo_sized, MediaContent};
use attachments::media::{kind_for, MediaType, OutgoingMedia};
use attachments::message::{QuotedMessage, ReplyDraft, Tone};
use attachments::picked::{Chosen, Picked};

/// A three by two picture.
const PNG: [u8; 73] = [
    137, 80, 78, 71, 13, 10, 26, 10, 0, 0, 0, 13, 73, 72, 68, 82, 0, 0, 0, 3, 0, 0, 0, 2, 8, 0, 0,
    0, 0, 184, 31, 57, 198, 0, 0, 0, 16, 73, 68, 65, 84, 120, 156, 99, 96, 100, 98, 102, 96, 97,
    101, 3, 0, 0, 70, 0, 22, 119, 245, 200, 127, 0, 0, 0, 0, 73, 69, 78, 68, 174, 66, 96, 130,
];

/// A file of this type, with bytes that are nothing in particular.
fn picked(file_name: &str, mime_type: &str) -> Picked {
    Picked::automatic(file_name.to_string(), mime_type.to_string(), vec![0; 4096])
}

fn chosen(files: Vec<Picked>, refused: Vec<String>) -> Result<Chosen, String> {
    Ok(Chosen { files, refused })
}

fn draft(message_id: &str) -> ReplyDraft {
    ReplyDraft {
        message_id: message_id.into(),
        sender: "peer@example.invalid".into(),
        sender_name: "Peer".into(),
        preview: "Earlier message".into(),
        kind: None,
    }
}

/// The file that each delivery of a confirmation tried to send.
fn attempts(confirmation: Option<Confirmation>) -> Vec<Picked> {
    let mut files = Vec::new();
    for delivery in confirmation.map(|it| it.deliveries).unwrap_or_default() {
        files.push(match delivery {
            Delivery::Refused { file, .. } => file,
            Delivery::Sent { outgoing } => Picked {
                file_name: outgoing.attachment.file_name,
                mime_type: outgoing.attachment.mime_type,
                kind: outgoing.attachment.kind,
                bytes: outgoing.attachment.bytes,
            },
        });
    }
    files
}

fn lines(outcome: Attached) -> Vec<String> {
    let notices = match outcome {
        Attached::Failed { notice } => vec![notice],
        Attached::Dismissed => Vec::new(),
        Attached::Refused { notices } => notices,
        Attached::Queued { notices } => notices,
    };
    assert!(notices.iter().all(|notice| notice.tone == Tone::Problem));
    notices.into_iter().map(|notice| notice.text).collect()
}

#[test]
fn a_picture_nothing_draws_is_sent_and_echoed_as_a_document() {
    for undrawable in [
        "image/svg+xml",
        "image/heic",
        "image/heif",
        "image/avif",
        "image/tiff",
        "image/bmp",
    ] {
        let file = picked("desenho", undrawable);
        let kind = kind_for(&file.mime_type);
        assert_eq!(kind, OutgoingMedia::Document, "{undrawable}");

        let echo = echo_of(&file, kind);
        assert_eq!(echo.media_type(), MediaType::Document, "{undrawable}");
        assert!(
            echo.data().is_empty(),
            "{undrawable} echoed {} bytes it cannot draw",
            echo.data().len()
        );
        // The name still travels, because a document is drawn as one.
        assert_eq!(echo.file_name(), Some("desenho"), "{undrawable}");
    }
}

#[test]
fn a_photo_is_still_echoed_from_its_own_bytes() {
    for photo in ["image/jpeg", "image/png", "image/gif", "image/webp"] {
        let file = picked("praia", photo);
        let kind = kind_for(&file.mime_type);
        assert_eq!(kind, OutgoingMedia::Image, "{photo}");

        let echo = echo_of(&file, kind);
        assert_eq!(echo.media_type(), MediaType::Image, "{photo}");
        assert_eq!(echo.data().len(), file.bytes.len(), "{photo}");
    }
}

#[test]
fn explicit_document_kind_survives_confirmation_for_media() {
    let mut app = WhatsAppApp::new();
    let mut attachment_attempts = Vec::new();
    let mut photo = picked("photo.jpg", "image/jpeg");
    photo.kind = OutgoingMedia::Document;
    let mut video = picked("clip.mp4", "video/mp4");
    video.kind = OutgoingMedia::Document;

    app.finish_attaching(
        "peer@example.invalid",
        None,
        chosen(vec![photo.clone(), video.clone()], Vec::new()),
    );
    assert!(attachment_attempts.is_empty());
    let pending = app.paste_preview.as_ref().expect("confirmation pending");
    assert!(pending
        .files
        .iter()
        .all(|file| file.kind == OutgoingMedia::Document));
    attachment_attempts.extend(attempts(app.confirm_paste_preview()));
    attachment_attempts.extend(attempts(app.confirm_paste_preview()));
    assert_eq!(attachment_attempts.len(), 2);
    assert!(attachment_attempts
        .iter()
        .all(|file| file.kind == OutgoingMedia::Document));
    assert_eq!(attachment_attempts[0].mime_type, "image/jpeg");
    assert_eq!(attachment_attempts[1].mime_type, "video/mp4");
    assert_eq!(echo_of(&photo, photo.kind).media_type(), MediaType::Document);
}

#[test]
fn overlapping_picker_results_are_queued_for_confirmation() {
    let mut app = WhatsAppApp::new();
    let first = picked("first.pdf", "application/pdf");
    let second = picked("second.mp4", "video/mp4");

    app.finish_attaching(
        "peer@example.invalid",
        None,
        chosen(vec![first.clone()], Vec::new()),
    );
    app.finish_attaching(
        "peer@example.invalid",
        None,
        chosen(vec![second.clone()], Vec::new()),
    );

    assert_eq!(
        app.paste_preview.as_ref().unwrap().files[0].file_name,
        first.file_name
    );
    assert_eq!(app.pending_attachment_previews.len(), 1);

    assert!(app.cancel_paste_preview());
    assert_eq!(
        app.paste_preview.as_ref().unwrap().files[0].file_name,
        second.file_name
    );
    assert_eq!(app.pending_attachment_previews.len(), 0);
}

#[test]
fn multi_file_choice_waits_for_one_explicit_confirmation() {
    let mut app = WhatsAppApp::new();
    let mut attachment_attempts = Vec::new();
    let files = vec![
        picked("first.pdf", "application/pdf"),
        picked("second.mp4", "video/mp4"),
    ];
    let reply = draft("QUOTED-1");

    app.reply_to = Some(reply.clone());
    let outcome = app.finish_attaching(
        "original-chat@example.invalid",
        Some(reply.clone()),
        chosen(files.clone(), vec!["third.bin was too large".into()]),
    );
    assert_eq!(lines(outcome), ["third.bin was too large"]);
    assert!(attachment_attempts.is_empty());
    let preview = app.paste_preview.as_ref().expect("choice opens preview");
    assert_eq!(preview.jid, "original-chat@example.invalid");
    assert_eq!(preview.files.len(), 2);
    assert_eq!(preview.files[0].file_name, "first.pdf");
    assert_eq!(preview.files[1].file_name, "second.mp4");
    assert_eq!(app.reply_to.as_ref().unwrap().message_id, "QUOTED-1");

    // Switching chats cannot redirect what the picker originally chose.
    app.selected_chat = Some("other-chat@example.invalid".into());
    let confirmation = app.confirm_paste_preview();
    assert_eq!(
        confirmation.as_ref().unwrap().jid,
        "original-chat@example.invalid"
    );
    attachment_attempts.extend(attempts(confirmation));
    attachment_attempts.extend(attempts(app.confirm_paste_preview()));
    assert!(app.paste_preview.is_none());
    assert_eq!(attachment_attempts.len(), 2);
    assert_eq!(attachment_attempts[0].file_name, "first.pdf");
    assert_eq!(attachment_attempts[1].file_name, "second.mp4");
    assert!(app.reply_to.is_none());
}

#[test]
fn refusal_only_and_cancel_never_send_or_consume_reply() {
    let mut app = WhatsAppApp::new();
    let reply = draft("QUOTED-2");
    app.reply_to = Some(reply.clone());
    let outcome = app.finish_attaching(
        "peer@example.invalid",
        Some(reply.clone()),
        chosen(Vec::new(), vec!["oversized.pdf was too large".into()]),
    );
    assert!(matches!(outcome, Attached::Refused { .. }));
    assert_eq!(lines(outcome), ["oversized.pdf was too large"]);
    assert!(app.paste_preview.is_none());
    assert_eq!(app.reply_to.as_ref().unwrap().message_id, "QUOTED-2");

    app.finish_attaching(
        "peer@example.invalid",
        Some(reply),
        chosen(vec![picked("safe.pdf", "application/pdf")], Vec::new()),
    );
    assert!(app.cancel_paste_preview());
    assert!(attempts(app.confirm_paste_preview()).is_empty());
    assert_eq!(app.reply_to.as_ref().unwrap().message_id, "QUOTED-2");
}

#[test]
fn a_failed_chooser_and_a_dismissed_one_change_nothing() {
    let mut app = WhatsAppApp::new();
    app.reply_to = Some(draft("KEPT"));
    let failed = app.finish_attaching("a", Some(draft("KEPT")), Err("no portal".into()));
    assert!(matches!(failed, Attached::Failed { .. }));
    assert_eq!(lines(failed), ["no portal"]);
    let dismissed = app.finish_attaching("a", None, chosen(Vec::new(), Vec::new()));
    assert!(matches!(dismissed, Attached::Dismissed));
    assert!(app.paste_preview.is_none());
    assert_eq!(app.pending_attachment_previews.len(), 0);
    assert_eq!(app.reply_to.as_ref().unwrap().message_id, "KEPT");
    assert!(!app.cancel_paste_preview());
    assert!(app.confirm_paste_preview().is_none());
}

#[test]
fn every_refusal_is_a_line_of_its_own_in_order() {
    let mut app = WhatsAppApp::new();
    let outcome = app.finish_attaching(
        "a",
        None,
        chosen(
            vec![picked("one.png", "image/png")],
            vec!["film.mkv is too big".into(), "gone.txt was not found".into()],
        ),
    );
    assert!(matches!(outcome, Attached::Queued { .. }));
    assert_eq!(
        lines(outcome),
        ["film.mkv is too big", "gone.txt was not found"]
    );
}

#[test]
fn three_selections_are_confirmed_in_the_order_of_acceptance() {
    let mut app = WhatsAppApp::new();
    for name in ["a", "b", "c"] {
        app.finish_attaching(name, None, chosen(vec![picked(name, "text/plain")], Vec::new()));
    }
    for name in ["a", "b", "c"] {
        let confirmation = app.confirm_paste_preview().unwrap();
        assert_eq!(confirmation.jid, name);
        assert_eq!(attempts(Some(confirmation))[0].file_name, name);
    }
    assert!(app.confirm_paste_preview().is_none());
}

#[test]
fn without_a_client_each_file_is_refused_by_name() {
    let mut app = WhatsAppApp::new();
    app.finish_attaching(
        "a",
        None,
        chosen(
            vec![picked("x.pdf", "application/pdf"), picked("y.pdf", "application/pdf")],
            Vec::new(),
        ),
    );
    let deliveries = app.confirm_paste_preview().unwrap().deliveries;
    let mut said = Vec::new();
    for delivery in deliveries {
        match delivery {
            Delivery::Refused { file, notice } => {
                assert_eq!(file.bytes, vec![0; 4096]);
                said.push(notice.text);
            }
            Delivery::Sent { .. } => panic!("there is no client"),
        }
    }
    assert_eq!(
        said,
        [
            "x.pdf could not be sent: not connected.",
            "y.pdf could not be sent: not connected.",
        ]
    );
}

#[test]
fn only_the_first_file_quotes_the_captured_draft() {
    let mut app = WhatsAppApp::new();
    app.client = true;
    app.reply_to = Some(draft("Q"));
    app.finish_attaching(
        "chat",
        Some(draft("Q")),
        chosen(
            vec![
                Picked::automatic("p.png".into(), "image/png".into(), PNG.to_vec()),
                picked("d.pdf", "application/pdf"),
            ],
            Vec::new(),
        ),
    );
    let confirmation = app.confirm_paste_preview().unwrap();
    assert!(confirmation.reply_cleared);
    assert!(app.reply_to.is_none());
    let mut bubbles = Vec::new();
    for (i, delivery) in confirmation.deliveries.into_iter().enumerate() {
        match delivery {
            Delivery::Sent { outgoing } => {
                let (upload, message) = outgoing.identified(format!("{LOCAL_ID_PREFIX}-{i}"));
                assert_eq!(upload.jid, "chat");
                assert_eq!(upload.local_id, message.id);
                assert_eq!(upload.attachment.caption, None);
                assert_eq!(upload.quoted.is_some(), message.quoted.is_some());
                assert_eq!(message.text, "");
                bubbles.push(message);
            }
            Delivery::Refused { .. } => panic!("there is a client"),
        }
    }
    assert_eq!(bubbles[0].id, "local_media-0");
    assert_eq!(bubbles[0].quoted.as_ref().unwrap().message_id, "Q");
    assert!(bubbles[1].quoted.is_none());
    match &bubbles[0].media {
        MediaContent::Image { data, mime_type, unfetched, width, height } => {
            assert_eq!(data.as_slice(), &PNG);
            assert_eq!(mime_type, "image/png");
            assert!(!unfetched);
            assert_eq!((*width, *height), (Some(3), Some(2)));
        }
        _ => panic!("a picture is drawn as one"),
    }
    match &bubbles[1].media {
        MediaContent::Document { mime_type, file_name } => {
            assert_eq!(mime_type, "application/pdf");
            assert_eq!(file_name.as_deref(), Some("d.pdf"));
        }
        _ => panic!("a document is drawn as one"),
    }
}

#[test]
fn a_newer_draft_survives_the_confirmation() {
    let mut app = WhatsAppApp::new();
    app.client = true;
    app.reply_to = Some(draft("OLD"));
    app.finish_attaching(
        "chat",
        Some(draft("OLD")),
        chosen(vec![picked("d.pdf", "application/pdf")], Vec::new()),
    );
    app.reply_to = Some(draft("NEW"));
    let confirmation = app.confirm_paste_preview().unwrap();
    assert!(!confirmation.reply_cleared);
    assert_eq!(app.reply_to.as_ref().unwrap().message_id, "NEW");
    match &confirmation.deliveries[0] {
        Delivery::Sent { outgoing } => {
            assert_eq!(outgoing.quoted.as_ref().unwrap().message_id, "OLD");
        }
        Delivery::Refused { .. } => panic!("there is a client"),
    }
}

#[test]
fn a_quote_keeps_what_the_draft_said() {
    let mut app = WhatsAppApp::new();
    let mut reply = draft("Q");
    reply.kind = Some(7);
    let taken = app.take_reply_draft(Some(reply.clone()));
    assert!(!taken.cleared);
    let quoted = taken.quoted.unwrap();
    let direct = QuotedMessage::from(reply);
    assert_eq!(quoted.message_id, direct.message_id);
    assert_eq!(quoted.sender, "peer@example.invalid");
    assert_eq!(quoted.sender_name, "Peer");
    assert_eq!(quoted.preview, "Earlier message");
    assert_eq!(quoted.kind, Some(7));
    assert!(app.take_reply_draft(None).quoted.is_none());
}

#[test]
fn the_timeline_follows_only_what_was_drawn_in_the_open_conversation() {
    let mut app = WhatsAppApp::new();
    app.visible_chat = Some("chat".into());
    app.finish_attaching(
        "chat",
        None,
        chosen(vec![picked("d.pdf", "application/pdf")], Vec::new()),
    );
    app.selected_chat = Some("chat".into());
    let confirmation = app.confirm_paste_preview().unwrap();
    assert!(confirmation.chat_was_visible);
    assert!(app.follows_sent(&confirmation, &[false, true]));
    assert!(!app.follows_sent(&confirmation, &[false, false]));
    assert!(!app.follows_sent(&confirmation, &[]));
    app.selected_chat = Some("other".into());
    assert!(!app.follows_sent(&confirmation, &[true]));
    app.selected_chat = Some("chat".into());
    app.destination = Destination::Elsewhere;
    assert!(!app.follows_sent(&confirmation, &[true]));

    let mut app = WhatsAppApp::new();
    app.visible_chat = Some("other".into());
    app.selected_chat = Some("chat".into());
    app.finish_attaching(
        "chat",
        None,
        chosen(vec![picked("d.pdf", "application/pdf")], Vec::new()),
    );
    let confirmation = app.confirm_paste_preview().unwrap();
    assert!(!app.follows_sent(&confirmation, &[true]));
}

#[test]
fn files_are_asked_for_only_in_a_connected_conversation() {
    let mut app = WhatsAppApp::new();
    assert!(matches!(app.prepare_file_drop(), Preparation::Ignored));
    assert!(matches!(app.attach_category("media"), Preparation::Ignored));

    app.selected_chat = Some("chat".into());
    for preparation in [app.prepare_file_drop(), app.attach_category(())] {
        match preparation {
            Preparation::Refused { notice } => {
                assert_eq!(notice.text, "Files cannot be sent right now: not connected.");
                assert_eq!(notice.tone, Tone::Problem);
            }
            _ => panic!("not connected"),
        }
    }

    app.connected = true;
    app.reply_to = Some(draft("Q"));
    match app.attach_category("media") {
        Preparation::Ready { jid, reply, category } => {
            assert_eq!(jid, "chat");
            assert_eq!(reply.unwrap().message_id, "Q");
            assert_eq!(category, "media");
        }
        _ => panic!("connected"),
    }
    assert_eq!(app.reply_to.as_ref().unwrap().message_id, "Q");
    assert!(matches!(app.prepare_file_drop(), Preparation::Ready { .. }));

    app.destination = Destination::Elsewhere;
    assert!(matches!(app.prepare_file_drop(), Preparation::Ignored));
    assert!(matches!(app.attach_category(()), Preparation::Ready { .. }));

    app.destination = Destination::Chats;
    app.finish_attaching("chat", None, chosen(vec![picked("x", "text/plain")], Vec::new()));
    assert!(matches!(app.prepare_file_drop(), Preparation::Ignored));
    assert!(matches!(app.attach_category(()), Preparation::Ignored));
}

#[test]
fn the_drop_listener_is_installed_once() {
    let mut app = WhatsAppApp::new();
    assert!(app.ensure_file_drop());
    assert_eq!(
        app.file_drop_installed(Err("no window".into())).as_deref(),
        Some("file drops are unavailable: no window")
    );
    assert!(app.ensure_file_drop());
    assert_eq!(app.file_drop_installed(Ok(())), None);
    assert!(!app.ensure_file_drop());
}

#[test]
fn a_video_echoes_nothing_but_its_kind() {
    let file = picked("clip.mp4", "video/mp4");
    assert_eq!(file.kind, OutgoingMedia::Video);
    let echo = echo_of(&file, file.kind);
    assert_eq!(echo.media_type(), MediaType::Video);
    assert!(echo.data().is_empty());
    assert_eq!(echo.file_name(), None);
    assert!(matches!(echo, MediaContent::Video { duration: None, .. }));
}

#[test]
fn an_echo_takes_the_sides_it_is_given() {
    let file = picked("praia", "image/png");
    match echo_sized(&file, OutgoingMedia::Image, (Some(1920), Some(1080))) {
        MediaContent::Image { width, height, .. } => {
            assert_eq!((width, height), (Some(1920), Some(1080)));
        }
        _ => panic!("a picture is drawn as one"),
    }
}

#[test]
fn a_selection_goes_where_it_was_started() {
    let mut app = WhatsAppApp::new();
    app.connected = true;
    app.selected_chat = Some("first".into());
    app.reply_to = Some(draft("Q"));
    let (jid, reply) = match app.attach_category(()) {
        Preparation::Ready { jid, reply, .. } => (jid, reply),
        _ => panic!("connected"),
    };
    app.selected_chat = Some("second".into());
    app.reply_to = None;
    app.finish_attaching(&jid, reply, chosen(vec![picked("x", "text/plain")], Vec::new()));
    let preview = app.paste_preview.as_ref().unwrap();
    assert_eq!(preview.jid, "first");
    assert_eq!(preview.reply.as_ref().unwrap().message_id, "Q");
}

#[test]
fn every_selection_has_a_place_for_each_picture() {
    let mut app = WhatsAppApp::new();
    for _ in 0..2 {
        app.finish_attaching(
            "chat",
            None,
            chosen(vec![picked("p", "image/png"), picked("d", "text/plain")], Vec::new()),
        );
    }
    let waiting = app.pending_attachment_previews.iter();
    for preview in app.paste_preview.iter().chain(waiting) {
        assert_eq!(preview.images.len(), 2);
        assert!(preview.images[0].is_some());
        assert!(preview.images[1].is_none());
    }
    app.show_next_paste_preview();
    assert_eq!(app.pending_attachment_previews.len(), 1);
}

#[test]
fn given_sides_are_drawn_file_by_file() {
    let mut app = WhatsAppApp::new();
    app.client = true;
    app.finish_attaching(
        "chat",
        None,
        chosen(
            vec![
                picked("a", "image/png"),
                picked("b", "image/jpeg"),
                picked("c", "image/gif"),
            ],
            Vec::new(),
        ),
    );
    let confirmation = app
        .confirm_sized(&[(Some(10), Some(20)), (None, None)])
        .unwrap();
    let mut sides = Vec::new();
    for delivery in &confirmation.deliveries {
        match delivery {
            Delivery::Sent { outgoing } => match &outgoing.media {
                MediaContent::Image { width, height, .. } => sides.push((*width, *height)),
                _ => panic!("a picture is drawn as one"),
            },
            Delivery::Refused { .. } => panic!("there is a client"),
        }
    }
    assert_eq!(sides, [(Some(10), Some(20)), (None, None), (None, None)]);
    assert!(app.confirm_sized(&[(Some(1), Some(1))]).is_none());
}

#[test]
fn one_file_is_sent_as_its_own_kind() {
    let mut app = WhatsAppApp::new();
    app.client = true;
    let mut file = Picked::automatic("p.png".into(), "image/png".into(), PNG.to_vec());
    match app.send_attachment("chat", file.clone(), None) {
        Delivery::Sent { outgoing } => {
            assert_eq!(outgoing.attachment.kind, OutgoingMedia::Image);
            assert!(matches!(
                outgoing.media,
                MediaContent::Image { width: Some(3), height: Some(2), .. }
            ));
        }
        Delivery::Refused { .. } => panic!("there is a client"),
    }
    file.kind = OutgoingMedia::Document;
    match app.send_sized("chat", file, None, (Some(3), Some(2))) {
        Delivery::Sent { outgoing } => {
            assert_eq!(outgoing.attachment.kind, OutgoingMedia::Document);
            assert_eq!(outgoing.media.file_name(), Some("p.png"));
            assert!(outgoing.media.data().is_empty());
        }
        Delivery::Refused { .. } => panic!("there is a client"),
    }
}

#[test]
fn a_run_sends_the_confirmed_files_once_and_no_others() {
    let mut app = WhatsAppApp::new();
    app.client = true;
    for (jid, names) in [("one", ["a", "b"]), ("two", ["c", "d"]), ("three", ["e", "f"])] {
        let files = names.iter().map(|name| picked(name, "text/plain")).collect();
        app.finish_attaching(jid, None, chosen(files, Vec::new()));
    }
    let mut sent = Vec::new();
    for confirm in [true, false, true, true] {
        if !confirm {
            assert!(app.cancel_paste_preview());
            continue;
        }
        for delivery in app.confirm_paste_preview().map(|it| it.deliveries).unwrap_or_default() {
            match delivery {
                Delivery::Sent { outgoing } => {
                    sent.push((outgoing.jid, outgoing.attachment.file_name));
                }
                Delivery::Refused { .. } => panic!("there is a client"),
            }
        }
    }
    let sent: Vec<(&str, &str)> = sent.iter().map(|it| (it.0.as_str(), it.1.as_str())).collect();
    assert_eq!(sent, [("one", "a"), ("one", "b"), ("three", "e"), ("three", "f")]);
}
