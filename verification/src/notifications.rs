//! System notifications: authorization, delivery and the profile image that
//! goes with one.
//!
//! Authorization is asked for before a message can arrive, so that the first
//! incoming message does not race the permission sheet.

use vstd::prelude::*;

use crate::staging::{
    a_staged_name_spells_the_digest, attachment_path, digest, spelled, staged_path, AttachmentPath,
    StagedPath,
};

verus! {

/// What this process can ask of the system's notification service.
#[derive(Clone, Copy, PartialEq, Eq, Debug, Structural)]
pub enum Host {
    /// The platform has no native path here.
    Unsupported,
    /// The process was not launched from an application bundle, outside of
    /// which the service must not be touched.
    OutsideBundle,
    /// The process runs from an application bundle.
    Bundle,
}

/// What a notification may do, as authorization asks for it.
#[derive(Clone, Copy, PartialEq, Eq, Debug, Structural)]
pub struct AuthorizationOptions {
    pub alert: bool,
    pub sound: bool,
}

/// The authorization to ask the operating system for, when it has one: alerts
/// and sounds, and only from an application bundle.
pub fn request_authorization(host: Host) -> (asked: Option<AuthorizationOptions>)
    ensures
        asked == (match host {
            Host::Bundle => Some(AuthorizationOptions { alert: true, sound: true }),
            _ => None,
        }),
{
    match host {
        Host::Bundle => Some(AuthorizationOptions { alert: true, sound: true }),
        _ => None,
    }
}

/// How the person, or the system, answered.
#[derive(Debug)]
pub enum AuthorizationAnswer {
    Granted,
    Denied,
    Failed { description: String },
}

/// What to report of an answer. An error goes before a refusal.
pub fn authorization_answered(granted: bool, error: Option<String>) -> (answer: AuthorizationAnswer)
    ensures
        match error {
            Some(description) => answer == (AuthorizationAnswer::Failed { description }),
            None => answer == if granted {
                AuthorizationAnswer::Granted
            } else {
                AuthorizationAnswer::Denied
            },
        },
{
    match error {
        Some(description) => AuthorizationAnswer::Failed { description },
        None => {
            if granted {
                AuthorizationAnswer::Granted
            } else {
                AuthorizationAnswer::Denied
            }
        },
    }
}

/// A notification that waits to be posted.
#[derive(Debug)]
pub struct Notification {
    /// A stable tag: posting again under it replaces what was posted before.
    pub tag: String,
    pub title: String,
    pub body: String,
}

/// The mathematical model of a [`Notification`].
pub struct Alert {
    pub tag: Seq<char>,
    pub title: Seq<char>,
    pub body: Seq<char>,
}

impl View for Notification {
    type V = Alert;

    open spec fn view(&self) -> Alert {
        Alert { tag: self.tag@, title: self.title@, body: self.body@ }
    }
}

/// The model of an optional notification.
pub open spec fn alert_model(notification: Option<Notification>) -> Option<Alert> {
    match notification {
        Some(notification) => Some(notification@),
        None => None,
    }
}

/// The alert that the native path accepts: any from an application bundle, and
/// none from elsewhere.
pub open spec fn accepted(host: Host, alert: Alert) -> Option<Alert> {
    match host {
        Host::Bundle => Some(alert),
        _ => None,
    }
}

/// Take a notification onto the native path.
///
/// Nothing comes back where the native path does not accept it: on a platform
/// without one, and in a process not launched from an application bundle. The
/// caller then keeps to its own path.
pub fn show_notification_with_avatar(host: Host, tag: &str, title: &str, body: &str) -> (taken:
    Option<Notification>)
    ensures
        alert_model(taken) == accepted(host, Alert { tag: tag@, title: title@, body: body@ }),
{
    match host {
        Host::Bundle => Some(
            Notification {
                tag: tag.to_owned(),
                title: title.to_owned(),
                body: body.to_owned(),
            },
        ),
        _ => None,
    }
}

/// What the system says of this application's permission to notify.
#[derive(Clone, Copy, PartialEq, Eq, Debug, Structural)]
pub enum AuthorizationStatus {
    NotDetermined,
    Denied,
    Authorized,
    Provisional,
    Ephemeral,
    /// A status that this build does not know.
    Unknown,
}

impl AuthorizationStatus {
    /// Whether a notification may be posted now.
    pub open spec fn permits(self) -> bool {
        self is Authorized || self is Provisional || self is Ephemeral
    }
}

/// The alert that is kept to post under this status, if it is.
pub open spec fn kept(alert: Alert, status: AuthorizationStatus) -> Option<Alert> {
    if status.permits() {
        Some(alert)
    } else {
        None
    }
}

/// Keep a notification to post, or drop it, once the settings are known and
/// before anything is scheduled.
///
/// A request queued while the permission sheet is still open can appear as a
/// stale alert much later, so a message that is not permitted now is dropped.
pub fn settings_received(notification: Notification, status: AuthorizationStatus) -> (left: Option<
    Notification,
>)
    ensures
        alert_model(left) == kept(notification@, status),
{
    match status {
        AuthorizationStatus::Authorized => Some(notification),
        AuthorizationStatus::Provisional => Some(notification),
        AuthorizationStatus::Ephemeral => Some(notification),
        _ => None,
    }
}

/// The first bytes of a PNG file.
pub open spec fn png_signature() -> Seq<u8> {
    seq![0x89, 0x50, 0x4e, 0x47, 0x0d, 0x0a, 0x1a, 0x0a]
}

/// The first bytes of a JPEG file.
pub open spec fn jpeg_signature() -> Seq<u8> {
    seq![0xff, 0xd8, 0xff]
}

/// The first bytes of a GIF file of the first version.
pub open spec fn gif87_signature() -> Seq<u8> {
    seq![0x47, 0x49, 0x46, 0x38, 0x37, 0x61]
}

/// The first bytes of a GIF file of the second version.
pub open spec fn gif89_signature() -> Seq<u8> {
    seq![0x47, 0x49, 0x46, 0x38, 0x39, 0x61]
}

/// The extension of an image that the system can thumbnail.
pub open spec fn extension_of(bytes: Seq<u8>) -> Option<Seq<char>> {
    if png_signature().is_prefix_of(bytes) {
        Some("png"@)
    } else if jpeg_signature().is_prefix_of(bytes) {
        Some("jpg"@)
    } else if gif87_signature().is_prefix_of(bytes) || gif89_signature().is_prefix_of(bytes) {
        Some("gif"@)
    } else {
        None
    }
}

/// Whether `bytes` begins with `signature`.
fn begins_with(bytes: &[u8], signature: &[u8]) -> (begins: bool)
    ensures
        begins == signature@.is_prefix_of(bytes@),
{
    if bytes.len() < signature.len() {
        return false;
    }
    let mut i: usize = 0;
    while i < signature.len()
        invariant
            i <= signature@.len() <= bytes@.len(),
            forall|k: int| 0 <= k < i ==> signature@[k] == bytes@[k],
        decreases signature@.len() - i,
    {
        if signature[i] != bytes[i] {
            return false;
        }
        i += 1;
    }
    assert(signature@ =~= bytes@.subrange(0, signature@.len() as int));
    true
}

/// The extension of an image that the system can thumbnail, from its first
/// bytes.
pub fn image_extension(bytes: &[u8]) -> (extension: Option<&'static str>)
    ensures
        match extension {
            Some(extension) => extension_of(bytes@) == Some(extension@),
            None => extension_of(bytes@) is None,
        },
{
    let png: [u8; 8] = [0x89, 0x50, 0x4e, 0x47, 0x0d, 0x0a, 0x1a, 0x0a];
    let jpeg: [u8; 3] = [0xff, 0xd8, 0xff];
    let gif87: [u8; 6] = [0x47, 0x49, 0x46, 0x38, 0x37, 0x61];
    let gif89: [u8; 6] = [0x47, 0x49, 0x46, 0x38, 0x39, 0x61];
    assert(png@ =~= png_signature());
    assert(jpeg@ =~= jpeg_signature());
    assert(gif87@ =~= gif87_signature());
    assert(gif89@ =~= gif89_signature());
    if begins_with(bytes, &png) {
        Some("png")
    } else if begins_with(bytes, &jpeg) {
        Some("jpg")
    } else if begins_with(bytes, &gif87) || begins_with(bytes, &gif89) {
        Some("gif")
    } else {
        None
    }
}

/// The largest image that the system accepts as an attachment, in bytes.
pub const ATTACHMENT_LIMIT: usize = 10 * 1024 * 1024;

/// Where the image is staged, if it is one to attach.
pub open spec fn staging(tag: Seq<char>, bytes: Seq<u8>) -> Option<StagedPath> {
    match extension_of(bytes) {
        Some(extension) if bytes.len() <= ATTACHMENT_LIMIT => Some(
            staged_path(digest(tag, bytes), extension),
        ),
        _ => None,
    }
}

/// The model of an optional path.
pub open spec fn path_model(path: Option<AttachmentPath>) -> Option<StagedPath> {
    match path {
        Some(path) => Some(path@),
        None => None,
    }
}

/// Where to stage a private copy of the image, if it is one to attach.
///
/// An image over the limit would have the whole notification rejected, and one
/// in another format would not be drawn: neither is attached.
pub fn make_avatar_attachment(tag: &str, bytes: &[u8]) -> (path: Option<AttachmentPath>)
    ensures
        path_model(path) == staging(tag@, bytes@),
{
    if bytes.len() > ATTACHMENT_LIMIT {
        return None;
    }
    match image_extension(bytes) {
        Some(extension) => Some(attachment_path(tag, bytes, extension)),
        None => None,
    }
}

/// What became of staging an image and offering it to the system.
#[derive(Clone, Copy, PartialEq, Eq, Debug, Structural)]
pub enum StagingOutcome {
    /// The copy could not be written.
    NotWritten,
    /// The copy was written and its path makes no file URL.
    Unaddressable,
    /// The system did not accept the copy as an attachment.
    Rejected,
    /// The system made an attachment of the copy.
    Accepted,
}

/// A staged image, and what became of it.
#[derive(Debug)]
pub struct StagedAvatar {
    pub path: AttachmentPath,
    pub outcome: StagingOutcome,
}

/// The model of an optional staged image.
pub open spec fn staged_model(staged: Option<StagedAvatar>) -> Option<(
    StagedPath,
    StagingOutcome,
)> {
    match staged {
        Some(staged) => Some((staged.path@, staged.outcome)),
        None => None,
    }
}

/// One request to the notification service, to be delivered immediately.
#[derive(Debug)]
pub struct Request {
    /// A request under the same identifier replaces a pending one.
    pub identifier: String,
    pub title: String,
    pub body: String,
    pub attachment: Option<AttachmentPath>,
}

/// The mathematical model of a [`Request`].
pub struct Submission {
    pub identifier: Seq<char>,
    pub title: Seq<char>,
    pub body: Seq<char>,
    pub attachment: Option<StagedPath>,
}

impl View for Request {
    type V = Submission;

    open spec fn view(&self) -> Submission {
        Submission {
            identifier: self.identifier@,
            title: self.title@,
            body: self.body@,
            attachment: path_model(self.attachment),
        }
    }
}

/// The request for an alert, with or without an image.
pub open spec fn submission(alert: Alert, attachment: Option<StagedPath>) -> Submission {
    Submission { identifier: alert.tag, title: alert.title, body: alert.body, attachment }
}

/// The alert that a request carries.
pub open spec fn alert_of(request: Submission) -> Alert {
    Alert { tag: request.identifier, title: request.title, body: request.body }
}

/// A request without an image.
pub fn submit_plain(tag: &str, title: &str, body: &str) -> (request: Request)
    ensures
        request@ == submission(Alert { tag: tag@, title: title@, body: body@ }, None),
{
    Request {
        identifier: tag.to_owned(),
        title: title.to_owned(),
        body: body.to_owned(),
        attachment: None,
    }
}

/// A request to submit, and a staged file to remove first.
#[derive(Debug)]
pub struct Posting {
    pub request: Request,
    pub discard: Option<AttachmentPath>,
}

/// Where the cached image of an accepted notification is staged, if there is
/// one and it is one to attach.
pub fn stage_avatar(notification: &Notification, avatar: Option<&[u8]>) -> (path: Option<
    AttachmentPath,
>)
    ensures
        path_model(path) == (match avatar {
            Some(bytes) => staging(notification@.tag, bytes@),
            None => None,
        }),
{
    match avatar {
        Some(bytes) => make_avatar_attachment(notification.tag.as_str(), bytes),
        None => None,
    }
}

/// The attachment that staging left, if it left one.
pub open spec fn attached(staged: Option<(StagedPath, StagingOutcome)>) -> Option<StagedPath> {
    match staged {
        Some((path, StagingOutcome::Accepted)) => Some(path),
        _ => None,
    }
}

/// The staged file that has no further use, if there is one.
pub open spec fn discarded(staged: Option<(StagedPath, StagingOutcome)>) -> Option<StagedPath> {
    match staged {
        Some((path, StagingOutcome::Rejected)) => Some(path),
        _ => None,
    }
}

/// The request for a notification that may be posted, once its image has been
/// staged or found wanting.
pub fn post_authorized(notification: Notification, staged: Option<StagedAvatar>) -> (posting:
    Posting)
    ensures
        posting.request@ == submission(notification@, attached(staged_model(staged))),
        path_model(posting.discard) == discarded(staged_model(staged)),
{
    let mut attachment: Option<AttachmentPath> = None;
    let mut discard: Option<AttachmentPath> = None;
    if let Some(staged) = staged {
        match staged.outcome {
            StagingOutcome::Accepted => {
                attachment = Some(staged.path);
            },
            StagingOutcome::Rejected => {
                discard = Some(staged.path);
            },
            StagingOutcome::NotWritten => {},
            StagingOutcome::Unaddressable => {},
        }
    }
    Posting {
        request: Request {
            identifier: notification.tag,
            title: notification.title,
            body: notification.body,
            attachment,
        },
        discard,
    }
}

/// What is left to do once the service has answered a request.
#[derive(Debug)]
pub struct FollowUp {
    /// A staged file to remove.
    pub discard: Option<AttachmentPath>,
    /// A request to submit in place of the failed one.
    pub resubmit: Option<Request>,
}

/// The model of an optional request.
pub open spec fn request_model(request: Option<Request>) -> Option<Submission> {
    match request {
        Some(request) => Some(request@),
        None => None,
    }
}

/// The request that replaces a failed one: the same alert without its image,
/// and none where there was no image to blame.
pub open spec fn retry(request: Submission, failed: bool) -> Option<Submission> {
    if failed && request.attachment is Some {
        Some(submission(alert_of(request), None))
    } else {
        None
    }
}

/// What to do once the service has answered a request.
///
/// An image that is corrupt or too large must not eat the message alert: the
/// request is submitted once more without it, under the same identifier.
pub fn request_answered(request: Request, failed: bool) -> (follow_up: FollowUp)
    ensures
        request_model(follow_up.resubmit) == retry(request@, failed),
        path_model(follow_up.discard) == (if failed {
            request@.attachment
        } else {
            None
        }),
{
    if !failed {
        return FollowUp { discard: None, resubmit: None };
    }
    let resubmit = match &request.attachment {
        Some(_) => Some(
            submit_plain(
                request.identifier.as_str(),
                request.title.as_str(),
                request.body.as_str(),
            ),
        ),
        None => None,
    };
    FollowUp { discard: request.attachment, resubmit }
}

/// Every request that one notification leads to, in order, when the service's
/// answer to the first is `failed`.
pub open spec fn submissions(
    alert: Alert,
    staged: Option<(StagedPath, StagingOutcome)>,
    failed: bool,
) -> Seq<Submission> {
    let first = submission(alert, attached(staged));
    match retry(first, failed) {
        Some(second) => seq![first, second],
        None => seq![first],
    }
}

/// Every request that showing an alert leads to, in order: what is accepted
/// here and kept under this status is posted, and nothing else.
pub open spec fn requests(
    host: Host,
    status: AuthorizationStatus,
    alert: Alert,
    staged: Option<(StagedPath, StagingOutcome)>,
    failed: bool,
) -> Seq<Submission> {
    match accepted(host, alert) {
        Some(taken) => match kept(taken, status) {
            Some(left) => submissions(left, staged, failed),
            None => Seq::empty(),
        },
        None => Seq::empty(),
    }
}

/// Law: a message that is not permitted now, or not shown from an application
/// bundle, leads to no request at all, then or later, whatever its image and
/// whatever the service would answer.
pub proof fn what_is_not_permitted_is_never_posted(
    host: Host,
    status: AuthorizationStatus,
    alert: Alert,
    staged: Option<(StagedPath, StagingOutcome)>,
    failed: bool,
)
    requires
        !(host is Bundle) || !status.permits(),
    ensures
        requests(host, status, alert, staged, failed).len() == 0,
{
}

/// Law: a message that is permitted now, shown from an application bundle,
/// leads to the requests of its own alert, and to at least one.
pub proof fn what_is_permitted_is_posted(
    status: AuthorizationStatus,
    alert: Alert,
    staged: Option<(StagedPath, StagingOutcome)>,
    failed: bool,
)
    requires
        status.permits(),
    ensures
        requests(Host::Bundle, status, alert, staged, failed) == submissions(alert, staged, failed),
        requests(Host::Bundle, status, alert, staged, failed).len() >= 1,
{
}

/// Law: whatever the image, whatever became of staging it and whatever the
/// service answers, each request that a notification leads to carries its tag,
/// title and body unchanged, and there is at least one.
pub proof fn an_image_never_eats_the_alert(
    alert: Alert,
    staged: Option<(StagedPath, StagingOutcome)>,
    failed: bool,
)
    ensures
        submissions(alert, staged, failed).len() >= 1,
        forall|i: int|
            #![trigger submissions(alert, staged, failed)[i]]
            0 <= i < submissions(alert, staged, failed).len() ==> alert_of(
                submissions(alert, staged, failed)[i],
            ) == alert,
{
}

/// Law: a request is submitted a second time just when the first carried an
/// image and failed. The second carries none, so no answer to it leads to a
/// third.
pub proof fn a_failed_delivery_is_retried_once(
    alert: Alert,
    staged: Option<(StagedPath, StagingOutcome)>,
    failed: bool,
    failed_again: bool,
)
    ensures
        submissions(alert, staged, failed).len() <= 2,
        (submissions(alert, staged, failed).len() == 2) == (failed && attached(staged) is Some),
        submissions(alert, staged, failed).len() == 2 ==> submissions(
            alert,
            staged,
            failed,
        )[1].attachment is None,
        submissions(alert, staged, failed).len() == 2 ==> retry(
            submissions(alert, staged, failed)[1],
            failed_again,
        ) is None,
{
}

/// Law: an image that is absent, too large or in a format that the system
/// cannot thumbnail is never staged, and its notification is posted as one
/// request without an image, whatever the service answers.
pub proof fn an_unusable_image_posts_the_plain_alert(alert: Alert, bytes: Seq<u8>, failed: bool)
    requires
        bytes.len() > ATTACHMENT_LIMIT || extension_of(bytes) is None,
    ensures
        staging(alert.tag, bytes) is None,
        submissions(alert, None, failed) == seq![submission(alert, None)],
{
}

/// Law: an alert is accepted, unchanged, just from an application bundle.
pub proof fn an_alert_is_accepted_unchanged(host: Host, alert: Alert)
    ensures
        host is Bundle ==> accepted(host, alert) == Some(alert),
        host is OutsideBundle ==> accepted(host, alert) is None,
        host is Unsupported ==> accepted(host, alert) is None,
{
}

/// Law: an accepted alert is kept, unchanged, just under the three statuses
/// that permit it now.
pub proof fn an_alert_is_kept_unchanged(alert: Alert, status: AuthorizationStatus)
    ensures
        (status is Authorized || status is Provisional || status is Ephemeral) ==> kept(
            alert,
            status,
        ) == Some(alert),
        (status is NotDetermined || status is Denied || status is Unknown) ==> kept(
            alert,
            status,
        ) is None,
{
}

/// Law: an image is named a PNG, a JPEG or a GIF file by its first bytes, and
/// by nothing else in it.
pub proof fn an_extension_is_told_by_the_first_bytes(bytes: Seq<u8>)
    ensures
        extension_of(bytes) == Some("png"@) <==> (bytes.len() >= 8 && bytes.subrange(0, 8) == seq![
            0x89u8,
            0x50u8,
            0x4eu8,
            0x47u8,
            0x0du8,
            0x0au8,
            0x1au8,
            0x0au8,
        ]),
        extension_of(bytes) == Some("jpg"@) <==> (bytes.len() >= 3 && bytes.subrange(0, 3) == seq![
            0xffu8,
            0xd8u8,
            0xffu8,
        ]),
        extension_of(bytes) == Some("gif"@) <==> (bytes.len() >= 6 && (bytes.subrange(0, 6)
            == seq![0x47u8, 0x49u8, 0x46u8, 0x38u8, 0x37u8, 0x61u8] || bytes.subrange(0, 6)
            == seq![0x47u8, 0x49u8, 0x46u8, 0x38u8, 0x39u8, 0x61u8])),
        extension_of(bytes) is Some ==> extension_of(bytes) == Some("png"@) || extension_of(bytes)
            == Some("jpg"@) || extension_of(bytes) == Some("gif"@),
{
    reveal_strlit("png");
    reveal_strlit("jpg");
    reveal_strlit("gif");
    assert("png"@[0] == 'p' && "jpg"@[0] == 'j' && "gif"@[0] == 'g');
    let png = png_signature();
    let jpeg = jpeg_signature();
    let gif87 = gif87_signature();
    let gif89 = gif89_signature();
    assert(png[0] == 0x89 && jpeg[0] == 0xff && gif87[0] == 0x47 && gif89[0] == 0x47);
    if png.is_prefix_of(bytes) {
        assert(bytes[0] == png[0]);
    }
    if jpeg.is_prefix_of(bytes) {
        assert(bytes[0] == jpeg[0]);
    }
    if gif87.is_prefix_of(bytes) {
        assert(bytes[0] == gif87[0]);
    }
    if gif89.is_prefix_of(bytes) {
        assert(bytes[0] == gif89[0]);
    }
    if bytes.len() >= 8 {
        assert(bytes.subrange(0, 8)[0] == bytes[0]);
    }
    if bytes.len() >= 6 {
        assert(bytes.subrange(0, 6)[0] == bytes[0]);
    }
    if bytes.len() >= 3 {
        assert(bytes.subrange(0, 3)[0] == bytes[0]);
    }
}

/// Law: every PNG, JPEG or GIF image of at most ten mebibytes is staged, under
/// the digits of its digest and with the extension of its own format, and no
/// other image is.
pub proof fn every_usable_image_is_staged(tag: Seq<char>, bytes: Seq<u8>)
    ensures
        ATTACHMENT_LIMIT == 10_485_760,
        bytes.len() > 10_485_760 ==> staging(tag, bytes) is None,
        bytes.len() <= 10_485_760 && bytes.len() >= 8 && bytes.subrange(0, 8) == seq![
            0x89u8,
            0x50u8,
            0x4eu8,
            0x47u8,
            0x0du8,
            0x0au8,
            0x1au8,
            0x0au8,
        ] ==> staging(tag, bytes) is Some && staging(tag, bytes)->0.file_name == staging(
            tag,
            bytes,
        )->0.stem + seq!['.', 'p', 'n', 'g'],
        bytes.len() <= 10_485_760 && bytes.len() >= 3 && bytes.subrange(0, 3) == seq![
            0xffu8,
            0xd8u8,
            0xffu8,
        ] ==> staging(tag, bytes) is Some && staging(tag, bytes)->0.file_name == staging(
            tag,
            bytes,
        )->0.stem + seq!['.', 'j', 'p', 'g'],
        bytes.len() <= 10_485_760 && bytes.len() >= 6 && (bytes.subrange(0, 6) == seq![
            0x47u8,
            0x49u8,
            0x46u8,
            0x38u8,
            0x37u8,
            0x61u8,
        ] || bytes.subrange(0, 6) == seq![0x47u8, 0x49u8, 0x46u8, 0x38u8, 0x39u8, 0x61u8])
            ==> staging(tag, bytes) is Some && staging(tag, bytes)->0.file_name == staging(
            tag,
            bytes,
        )->0.stem + seq!['.', 'g', 'i', 'f'],
        extension_of(bytes) is None ==> staging(tag, bytes) is None,
        staging(tag, bytes) matches Some(path) ==> path.stem.len() == 16 && spelled(path.stem)
            == digest(tag, bytes) && path.directory == "oxidezap-notification-avatars"@,
{
    an_extension_is_told_by_the_first_bytes(bytes);
    reveal_strlit("png");
    reveal_strlit("jpg");
    reveal_strlit("gif");
    match extension_of(bytes) {
        Some(extension) => {
            a_staged_name_spells_the_digest(digest(tag, bytes), extension);
            let stem = staged_path(digest(tag, bytes), extension).stem;
            assert(stem + seq!['.'] + "png"@ =~= stem + seq!['.', 'p', 'n', 'g']);
            assert(stem + seq!['.'] + "jpg"@ =~= stem + seq!['.', 'j', 'p', 'g']);
            assert(stem + seq!['.'] + "gif"@ =~= stem + seq!['.', 'g', 'i', 'f']);
        },
        None => {},
    }
}

/// Law: a staged image is attached just where the system made an attachment of
/// it, and its file is removed at once just where the system turned it down.
pub proof fn a_staged_image_is_attached_or_removed(path: StagedPath, outcome: StagingOutcome)
    ensures
        outcome is Accepted ==> attached(Some((path, outcome))) == Some(path) && discarded(
            Some((path, outcome)),
        ) is None,
        outcome is Rejected ==> attached(Some((path, outcome))) is None && discarded(
            Some((path, outcome)),
        ) == Some(path),
        outcome is NotWritten || outcome is Unaddressable ==> attached(
            Some((path, outcome)),
        ) is None && discarded(Some((path, outcome))) is None,
        attached(None) is None,
        discarded(None) is None,
{
}

/// Law: a request carries the tag, title, body and image it was made from.
pub proof fn a_request_carries_its_alert(alert: Alert, attachment: Option<StagedPath>)
    ensures
        submission(alert, attachment).identifier == alert.tag,
        submission(alert, attachment).title == alert.title,
        submission(alert, attachment).body == alert.body,
        submission(alert, attachment).attachment == attachment,
{
}

/// Law: a failed request with an image is replaced by one with the same
/// identifier, title and body and no image; no other request is replaced.
pub proof fn a_retry_repeats_the_alert_without_its_image(request: Submission, failed: bool)
    ensures
        retry(request, failed) is Some <==> failed && request.attachment is Some,
        retry(request, failed) matches Some(second) ==> {
            &&& second.identifier == request.identifier
            &&& second.title == request.title
            &&& second.body == request.body
            &&& second.attachment is None
        },
{
}

/// Law: an alert shown from a bundle and permitted now is posted first with its
/// own tag, title and body and with the image that the system accepted, if it
/// accepted one.
pub proof fn the_first_request_shows_the_accepted_image(
    host: Host,
    status: AuthorizationStatus,
    alert: Alert,
    path: StagedPath,
    outcome: StagingOutcome,
    failed: bool,
)
    requires
        host is Bundle,
        status is Authorized || status is Provisional || status is Ephemeral,
    ensures
        requests(host, status, alert, Some((path, outcome)), failed).len() >= 1,
        ({
            let first = requests(host, status, alert, Some((path, outcome)), failed)[0];
            &&& first.identifier == alert.tag
            &&& first.title == alert.title
            &&& first.body == alert.body
            &&& (first.attachment == Some(path) <==> outcome is Accepted)
            &&& (first.attachment is None <==> !(outcome is Accepted))
        }),
        requests(host, status, alert, None, failed) == seq![
            Submission {
                identifier: alert.tag,
                title: alert.title,
                body: alert.body,
                attachment: None,
            },
        ],
{
}

/// Law: the models of a notification and of an optional one hold every field.
pub proof fn the_model_of_a_notification_is_whole(notification: Notification)
    ensures
        notification@.tag == notification.tag@,
        notification@.title == notification.title@,
        notification@.body == notification.body@,
        alert_model(Some(notification)) == Some(notification@),
        alert_model(None) is None,
{
}

/// Law: the models of a request and of an optional one hold every field.
pub proof fn the_model_of_a_request_is_whole(request: Request)
    ensures
        request@.identifier == request.identifier@,
        request@.title == request.title@,
        request@.body == request.body@,
        request.attachment matches Some(path) ==> request@.attachment == Some(path@),
        request.attachment is None ==> request@.attachment is None,
        request_model(Some(request)) == Some(request@),
        request_model(None) is None,
{
}

/// Law: the models of an optional path and of a staged image hold every field.
pub proof fn the_models_of_staging_are_whole(path: AttachmentPath, staged: StagedAvatar)
    ensures
        path_model(Some(path)) == Some(path@),
        path_model(None) is None,
        staged_model(Some(staged)) == Some((staged.path@, staged.outcome)),
        staged_model(None) is None,
{
}

} // verus!
