use std::collections::hash_map::DefaultHasher;
use std::hash::{Hash, Hasher};

use attachments::activity::{application_is_active, Activity};
use attachments::notifications::{
    authorization_answered, image_extension, make_avatar_attachment, post_authorized,
    request_answered, request_authorization, settings_received, show_notification_with_avatar,
    stage_avatar, AuthorizationAnswer, AuthorizationOptions, AuthorizationStatus, Host,
    Notification, StagedAvatar, StagingOutcome, ATTACHMENT_LIMIT,
};
use attachments::staging::{attachment_digest, attachment_path, digest_path};

fn notification() -> Notification {
    show_notification_with_avatar(Host::Bundle, "chat-1", "Peer", "Hello").unwrap()
}

fn png(len: usize) -> Vec<u8> {
    let mut bytes = b"\x89PNG\r\n\x1a\n".to_vec();
    bytes.resize(len, 0);
    bytes
}

#[test]
fn an_application_is_active_as_far_as_its_platform_says() {
    assert!(application_is_active(Activity::WindowOnly));
    assert!(!application_is_active(Activity::OffMainThread));
    assert!(application_is_active(Activity::Application { active: true }));
    assert!(!application_is_active(Activity::Application { active: false }));
}

#[test]
fn authorization_is_asked_for_only_from_a_bundle() {
    assert_eq!(request_authorization(Host::Unsupported), None);
    assert_eq!(request_authorization(Host::OutsideBundle), None);
    assert_eq!(
        request_authorization(Host::Bundle),
        Some(AuthorizationOptions { alert: true, sound: true })
    );
}

#[test]
fn an_error_goes_before_a_refusal() {
    assert!(matches!(authorization_answered(true, None), AuthorizationAnswer::Granted));
    assert!(matches!(authorization_answered(false, None), AuthorizationAnswer::Denied));
    for granted in [true, false] {
        match authorization_answered(granted, Some("no service".into())) {
            AuthorizationAnswer::Failed { description } => assert_eq!(description, "no service"),
            _ => panic!("an error is reported"),
        }
    }
}

#[test]
fn the_native_path_accepts_only_from_a_bundle() {
    assert!(show_notification_with_avatar(Host::Unsupported, "t", "a", "b").is_none());
    assert!(show_notification_with_avatar(Host::OutsideBundle, "t", "a", "b").is_none());
    let accepted = notification();
    assert_eq!(accepted.tag, "chat-1");
    assert_eq!(accepted.title, "Peer");
    assert_eq!(accepted.body, "Hello");
}

#[test]
fn a_message_that_is_not_permitted_now_is_dropped() {
    for status in [
        AuthorizationStatus::Authorized,
        AuthorizationStatus::Provisional,
        AuthorizationStatus::Ephemeral,
    ] {
        assert_eq!(settings_received(notification(), status).unwrap().body, "Hello");
    }
    for status in [
        AuthorizationStatus::NotDetermined,
        AuthorizationStatus::Denied,
        AuthorizationStatus::Unknown,
    ] {
        assert!(settings_received(notification(), status).is_none());
    }
}

#[test]
fn an_extension_follows_the_first_bytes() {
    assert_eq!(image_extension(b"\x89PNG\r\n\x1a\nrest"), Some("png"));
    assert_eq!(image_extension(b"\x89PNG\r\n\x1a"), None);
    assert_eq!(image_extension(b"\xff\xd8\xff"), Some("jpg"));
    assert_eq!(image_extension(b"\xff\xd8"), None);
    assert_eq!(image_extension(b"GIF87a"), Some("gif"));
    assert_eq!(image_extension(b"GIF89a!"), Some("gif"));
    assert_eq!(image_extension(b"GIF88a"), None);
    assert_eq!(image_extension(b"RIFF\0\0\0\0WEBP"), None);
    assert_eq!(image_extension(b""), None);
}

#[test]
fn an_image_over_the_limit_is_not_attached() {
    assert_eq!(ATTACHMENT_LIMIT, 10_485_760);
    assert!(make_avatar_attachment("t", &png(ATTACHMENT_LIMIT)).is_some());
    assert!(make_avatar_attachment("t", &png(ATTACHMENT_LIMIT + 1)).is_none());
    assert!(make_avatar_attachment("t", b"not an image").is_none());
    assert!(stage_avatar(&notification(), None).is_none());
    assert!(stage_avatar(&notification(), Some(b"RIFF\0\0\0\0WEBP".as_slice())).is_none());
}

#[test]
fn a_staged_name_is_sixteen_digits_and_the_extension() {
    let path = digest_path(0xab, "png");
    assert_eq!(path.directory, "oxidezap-notification-avatars");
    assert_eq!(path.stem, "00000000000000ab");
    assert_eq!(path.file_name, "00000000000000ab.png");
    assert_eq!(digest_path(u64::MAX, "gif").file_name, "ffffffffffffffff.gif");
    assert_eq!(digest_path(0, "jpg").file_name, "0000000000000000.jpg");
    assert_eq!(digest_path(0x0123_4567_89ab_cdef, "jpg").stem, "0123456789abcdef");
    assert_ne!(digest_path(1, "png").file_name, digest_path(2, "png").file_name);
}

#[test]
fn a_digest_is_the_hash_of_the_tag_and_the_image() {
    for (tag, bytes) in [("", vec![]), ("chat-1", png(64)), ("é🙂", vec![0xff; 300])] {
        let mut hasher = DefaultHasher::new();
        tag.hash(&mut hasher);
        bytes.as_slice().hash(&mut hasher);
        let value = hasher.finish();
        assert_eq!(attachment_digest(tag, &bytes), value);
        assert_eq!(
            attachment_path(tag, &bytes, "png").file_name,
            format!("{value:016x}.png")
        );
    }
    assert_ne!(attachment_digest("a", b"bc"), attachment_digest("ab", b"c"));
}

#[test]
fn staging_decides_what_is_attached_and_what_is_discarded() {
    for (outcome, attached, discarded) in [
        (StagingOutcome::NotWritten, false, false),
        (StagingOutcome::Unaddressable, false, false),
        (StagingOutcome::Rejected, false, true),
        (StagingOutcome::Accepted, true, false),
    ] {
        let path = stage_avatar(&notification(), Some(png(64).as_slice())).unwrap();
        let name = path.file_name.clone();
        assert!(name.ends_with(".png"));
        let posting = post_authorized(notification(), Some(StagedAvatar { path, outcome }));
        assert_eq!(posting.request.identifier, "chat-1");
        assert_eq!(posting.request.title, "Peer");
        assert_eq!(posting.request.body, "Hello");
        assert_eq!(posting.request.attachment.map(|path| path.file_name == name), attached.then_some(true));
        assert_eq!(posting.discard.map(|path| path.file_name == name), discarded.then_some(true));
    }
    let plain = post_authorized(notification(), None);
    assert!(plain.request.attachment.is_none());
    assert!(plain.discard.is_none());
}

#[test]
fn a_failed_image_is_retried_once_without_it() {
    let path = stage_avatar(&notification(), Some(png(64).as_slice())).unwrap();
    let name = path.file_name.clone();
    let staged = StagedAvatar { path: path.clone(), outcome: StagingOutcome::Accepted };
    let request = post_authorized(notification(), Some(staged)).request;
    let follow_up = request_answered(request, true);
    assert_eq!(follow_up.discard.unwrap().file_name, name);
    let plain = follow_up.resubmit.unwrap();
    assert_eq!(plain.identifier, "chat-1");
    assert_eq!(plain.title, "Peer");
    assert_eq!(plain.body, "Hello");
    assert!(plain.attachment.is_none());
    let again = request_answered(plain, true);
    assert!(again.discard.is_none());
    assert!(again.resubmit.is_none());

    let staged = StagedAvatar { path, outcome: StagingOutcome::Accepted };
    let delivered = request_answered(post_authorized(notification(), Some(staged)).request, false);
    assert!(delivered.discard.is_none());
    assert!(delivered.resubmit.is_none());
}

#[test]
fn only_a_permitted_message_leads_to_a_request() {
    let mut posted = Vec::new();
    for host in [Host::Unsupported, Host::OutsideBundle, Host::Bundle] {
        for status in [AuthorizationStatus::Denied, AuthorizationStatus::Authorized] {
            let request = show_notification_with_avatar(host, "chat-1", "Peer", "Hello")
                .and_then(|taken| settings_received(taken, status))
                .map(|left| post_authorized(left, None).request);
            posted.extend(request.map(|request| (host, status, request.identifier)));
        }
    }
    assert_eq!(
        posted,
        [(Host::Bundle, AuthorizationStatus::Authorized, "chat-1".to_string())]
    );
}
