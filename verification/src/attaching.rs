//! Attaching files: choose, confirm, send, and draw the bubble for it.
//!
//! Choosing and reading are asynchronous, so a selection carries the
//! conversation and the reply it was started from. Every accepted selection
//! waits behind one confirmation, and selections that overlap are confirmed
//! one after the other, in the order in which they were accepted.

use std::collections::VecDeque;
use std::sync::Arc;

use vstd::prelude::*;
use vstd::string::*;

use crate::dimensions::Sides;
use crate::echo::{drawn_at, echo, echo_sized, picture_size, Content, MediaContent};
use crate::media::OutgoingMedia;
use crate::message::{
    copy_draft, copy_quote, draft_model, problem, quote_model, Bubble, ChatMessage, Line, Notice,
    QuotedMessage, Reference, ReplyDraft,
};
use crate::paste_preview::{
    picture_models, preview_images, thumbnails, Picture, PreviewImage,
};
use crate::picked::{file_models, texts, Choice, Chosen, Picked, PickedFile};
use crate::text::{holds_text, optional_text, same_text};

verus! {

/// Which part of the application is open.
#[derive(Clone, Copy, PartialEq, Eq, Debug, Structural)]
pub enum Destination {
    /// The conversations, where files can be attached.
    Chats,
    /// Any other part.
    Elsewhere,
}

/// One accepted selection that waits for its confirmation.
#[derive(Debug)]
pub struct PendingPastePreview {
    /// The conversation that the selection was started from.
    pub jid: String,
    /// The draft that was being composed when the selection was started.
    pub reply: Option<ReplyDraft>,
    pub files: Vec<Picked>,
    /// A picture for each file that has one to show.
    pub images: Vec<Option<Arc<PreviewImage>>>,
    /// Whether the conversation was on screen when the files were accepted.
    pub chat_was_visible: bool,
}

/// The mathematical model of a [`PendingPastePreview`].
pub struct Pending {
    pub jid: Seq<char>,
    pub reply: Option<Reference>,
    pub files: Seq<PickedFile>,
    pub images: Seq<Option<Picture>>,
    pub chat_was_visible: bool,
}

impl View for PendingPastePreview {
    type V = Pending;

    open spec fn view(&self) -> Pending {
        Pending {
            jid: self.jid@,
            reply: draft_model(self.reply),
            files: file_models(self.files@),
            images: picture_models(self.images@),
            chat_was_visible: self.chat_was_visible,
        }
    }
}

/// The model of an optional selection.
pub open spec fn pending_model(preview: Option<PendingPastePreview>) -> Option<Pending> {
    match preview {
        Some(preview) => Some(preview@),
        None => None,
    }
}

/// The models of a run of selections, in the same order.
pub open spec fn pending_models(previews: Seq<PendingPastePreview>) -> Seq<Pending> {
    Seq::new(previews.len(), |i: int| previews[i]@)
}

/// What attaching reads and keeps of the application.
#[derive(Debug)]
pub struct WhatsAppApp {
    /// The selection on the confirmation surface.
    pub paste_preview: Option<PendingPastePreview>,
    /// The selections accepted while the surface was taken.
    pub pending_attachment_previews: VecDeque<PendingPastePreview>,
    /// The draft that is being composed.
    pub reply_to: Option<ReplyDraft>,
    pub destination: Destination,
    pub selected_chat: Option<String>,
    pub visible_chat: Option<String>,
    /// Whether the session is connected.
    pub connected: bool,
    /// Whether there is a client to hand files to.
    pub client: bool,
    /// Whether file drops are being listened for.
    pub file_drop_listener: bool,
}

/// The mathematical model of a [`WhatsAppApp`].
pub struct AppState {
    pub paste_preview: Option<Pending>,
    pub waiting: Seq<Pending>,
    pub reply_to: Option<Reference>,
    pub destination: Destination,
    pub selected_chat: Option<Seq<char>>,
    pub visible_chat: Option<Seq<char>>,
    pub connected: bool,
    pub client: bool,
    pub file_drop_listener: bool,
}

impl View for WhatsAppApp {
    type V = AppState;

    open spec fn view(&self) -> AppState {
        AppState {
            paste_preview: pending_model(self.paste_preview),
            waiting: pending_models(self.pending_attachment_previews@),
            reply_to: draft_model(self.reply_to),
            destination: self.destination,
            selected_chat: optional_text(self.selected_chat),
            visible_chat: optional_text(self.visible_chat),
            connected: self.connected,
            client: self.client,
            file_drop_listener: self.file_drop_listener,
        }
    }
}

/// The application before anything has happened.
pub open spec fn initial() -> AppState {
    AppState {
        paste_preview: None,
        waiting: Seq::empty(),
        reply_to: None,
        destination: Destination::Chats,
        selected_chat: None,
        visible_chat: None,
        connected: false,
        client: false,
        file_drop_listener: false,
    }
}

/// A selection joins: on the surface if it is free, behind the others if not.
pub open spec fn queued(state: AppState, preview: Pending) -> AppState {
    if state.paste_preview is None {
        AppState { paste_preview: Some(preview), ..state }
    } else {
        AppState { waiting: state.waiting.push(preview), ..state }
    }
}

/// The selection that has waited longest moves onto a free surface.
pub open spec fn next_shown(state: AppState) -> AppState {
    if state.paste_preview is None && state.waiting.len() > 0 {
        AppState {
            paste_preview: Some(state.waiting[0]),
            waiting: state.waiting.drop_first(),
            ..state
        }
    } else {
        state
    }
}

/// The selection on the surface leaves it, and the next one moves up.
pub open spec fn dismissed(state: AppState) -> AppState {
    if state.paste_preview is Some {
        next_shown(AppState { paste_preview: None, ..state })
    } else {
        state
    }
}

/// Whether the draft being composed is still the one that `reply` captured.
pub open spec fn still_composing(state: AppState, reply: Option<Reference>) -> bool {
    match (state.reply_to, reply) {
        (Some(current), Some(draft)) => current.message_id == draft.message_id,
        _ => false,
    }
}

/// The captured draft is consumed, if it is still the one being composed.
pub open spec fn reply_taken(state: AppState, reply: Option<Reference>) -> AppState {
    if still_composing(state, reply) {
        AppState { reply_to: None, ..state }
    } else {
        state
    }
}

/// The selection on the surface is sent: its draft is consumed, it leaves the
/// surface, and the next one moves up.
pub open spec fn confirmed(state: AppState) -> AppState {
    match state.paste_preview {
        Some(preview) => dismissed(reply_taken(state, preview.reply)),
        None => state,
    }
}

/// What comes of asking for files.
#[derive(Debug)]
pub enum Preparation<C> {
    /// Nothing is asked.
    Ignored,
    /// Nothing is asked, and the person is told why.
    Refused { notice: Notice },
    /// Files are asked for, to go to this conversation under this draft.
    Ready { jid: String, reply: Option<ReplyDraft>, category: C },
}

/// The mathematical model of a [`Preparation`].
pub enum Prepared<C> {
    Ignored,
    Refused { notice: Line },
    Ready { jid: Seq<char>, reply: Option<Reference>, category: C },
}

impl<C> View for Preparation<C> {
    type V = Prepared<C>;

    open spec fn view(&self) -> Prepared<C> {
        match *self {
            Preparation::Ignored => Prepared::Ignored,
            Preparation::Refused { notice } => Prepared::Refused { notice: notice@ },
            Preparation::Ready { jid, reply, category } => Prepared::Ready {
                jid: jid@,
                reply: draft_model(reply),
                category,
            },
        }
    }
}

/// What comes of asking for files by category: nothing behind a confirmation
/// or without a conversation, a refusal without a connection.
pub open spec fn prepared<C>(state: AppState, category: C) -> Prepared<C> {
    match (state.paste_preview, state.selected_chat) {
        (None, Some(jid)) => if state.connected {
            Prepared::Ready { jid, reply: state.reply_to, category }
        } else {
            Prepared::Refused {
                notice: problem("Files cannot be sent right now: not connected."@),
            }
        },
        _ => Prepared::Ignored,
    }
}

/// What comes of dropping files: as for a category, and nothing away from the
/// conversations.
pub open spec fn prepared_drop(state: AppState) -> Prepared<()> {
    if state.destination is Chats {
        prepared(state, ())
    } else {
        Prepared::Ignored
    }
}

/// What came of a choice.
#[derive(Debug)]
pub enum Attached {
    /// Choosing failed, and the person is told.
    Failed { notice: Notice },
    /// The chooser was dismissed.
    Dismissed,
    /// Nothing was accepted; a line for each refusal.
    Refused { notices: Vec<Notice> },
    /// The accepted files wait for confirmation; a line for each refusal.
    Queued { notices: Vec<Notice> },
}

/// The mathematical model of an [`Attached`].
pub enum Outcome {
    Failed { notice: Line },
    Dismissed,
    Refused { notices: Seq<Line> },
    Queued { notices: Seq<Line> },
}

/// The models of a run of lines, in the same order.
pub open spec fn line_models(notices: Seq<Notice>) -> Seq<Line> {
    Seq::new(notices.len(), |i: int| notices[i]@)
}

impl View for Attached {
    type V = Outcome;

    open spec fn view(&self) -> Outcome {
        match *self {
            Attached::Failed { notice } => Outcome::Failed { notice: notice@ },
            Attached::Dismissed => Outcome::Dismissed,
            Attached::Refused { notices } => Outcome::Refused { notices: line_models(notices@) },
            Attached::Queued { notices } => Outcome::Queued { notices: line_models(notices@) },
        }
    }
}

/// The model of what a chooser returns.
pub open spec fn choice_model(chosen: Result<Chosen, String>) -> Result<Choice, Seq<char>> {
    match chosen {
        Ok(chosen) => Ok(chosen@),
        Err(error) => Err(error@),
    }
}

/// One line for each refusal, in order.
pub open spec fn refusal_lines(refused: Seq<Seq<char>>) -> Seq<Line> {
    Seq::new(refused.len(), |i: int| problem(refused[i]))
}

/// The selection that a choice makes, for the conversation it was started from.
pub open spec fn selection(
    state: AppState,
    jid: Seq<char>,
    reply: Option<Reference>,
    files: Seq<PickedFile>,
) -> Pending {
    Pending {
        jid,
        reply,
        files,
        images: thumbnails(files),
        chat_was_visible: state.visible_chat == Some(jid),
    }
}

/// What comes of a choice.
pub open spec fn attach_outcome(chosen: Result<Choice, Seq<char>>) -> Outcome {
    match chosen {
        Err(error) => Outcome::Failed { notice: problem(error) },
        Ok(choice) => if choice.files.len() > 0 {
            Outcome::Queued { notices: refusal_lines(choice.refused) }
        } else if choice.refused.len() > 0 {
            Outcome::Refused { notices: refusal_lines(choice.refused) }
        } else {
            Outcome::Dismissed
        },
    }
}

/// The application after a choice: only accepted files change it.
pub open spec fn attached(
    state: AppState,
    jid: Seq<char>,
    reply: Option<Reference>,
    chosen: Result<Choice, Seq<char>>,
) -> AppState {
    match chosen {
        Ok(choice) if choice.files.len() > 0 => queued(
            state,
            selection(state, jid, reply, choice.files),
        ),
        _ => state,
    }
}

/// A draft that was consumed, and whether the reply bar was taken down.
#[derive(Debug)]
pub struct TakenReply {
    pub quoted: Option<QuotedMessage>,
    pub cleared: bool,
}

/// One file as it is handed to the session.
#[derive(Debug)]
pub struct Attachment {
    pub bytes: Vec<u8>,
    pub kind: OutgoingMedia,
    pub mime_type: String,
    pub file_name: String,
    pub caption: Option<String>,
}

/// The mathematical model of an [`Attachment`].
pub struct Payload {
    pub bytes: Seq<u8>,
    pub kind: OutgoingMedia,
    pub mime_type: Seq<char>,
    pub file_name: Seq<char>,
    pub caption: Option<Seq<char>>,
}

impl View for Attachment {
    type V = Payload;

    open spec fn view(&self) -> Payload {
        Payload {
            bytes: self.bytes@,
            kind: self.kind,
            mime_type: self.mime_type@,
            file_name: self.file_name@,
            caption: optional_text(self.caption),
        }
    }
}

/// One file on its way, before it has an identifier.
#[derive(Debug)]
pub struct Outgoing {
    pub jid: String,
    pub attachment: Attachment,
    pub media: MediaContent,
    pub quoted: Option<QuotedMessage>,
}

/// What comes of sending one file.
#[derive(Debug)]
pub enum Delivery {
    /// There is no client: the file is handed back, and the person is told.
    Refused { file: Picked, notice: Notice },
    /// The file is to be handed to the session and its bubble drawn.
    Sent { outgoing: Outgoing },
}

/// The mathematical model of a [`Delivery`].
pub enum Sending {
    Refused { file: PickedFile, notice: Line },
    Sent { jid: Seq<char>, payload: Payload, media: Content, quoted: Option<Reference> },
}

impl View for Delivery {
    type V = Sending;

    open spec fn view(&self) -> Sending {
        match *self {
            Delivery::Refused { file, notice } => Sending::Refused { file: file@, notice: notice@ },
            Delivery::Sent { outgoing } => Sending::Sent {
                jid: outgoing.jid@,
                payload: outgoing.attachment@,
                media: outgoing.media@,
                quoted: quote_model(outgoing.quoted),
            },
        }
    }
}

/// A file as it is handed to the session. The category chosen for it is what
/// it goes out as, and nothing types a caption.
pub open spec fn payload(file: PickedFile) -> Payload {
    Payload {
        bytes: file.bytes,
        kind: file.kind,
        mime_type: file.mime_type,
        file_name: file.file_name,
        caption: None,
    }
}

/// What comes of sending one file, drawn at these sides if it is a picture.
pub open spec fn sending(
    client: bool,
    jid: Seq<char>,
    file: PickedFile,
    quoted: Option<Reference>,
    size: Sides,
) -> Sending {
    if client {
        Sending::Sent {
            jid,
            payload: payload(file),
            media: echo(file, file.kind, size),
            quoted,
        }
    } else {
        Sending::Refused {
            file,
            notice: problem(file.file_name + " could not be sent: not connected."@),
        }
    }
}

/// The sides of the file at this place, where they were given.
pub open spec fn size_at(sizes: Seq<Sides>, i: int) -> Sides {
    if i < sizes.len() {
        sizes[i]
    } else {
        (None, None)
    }
}

/// What comes of sending a selection: each file in order, the first of them
/// quoting the captured draft, pictures drawn at these sides.
pub open spec fn sendings(
    client: bool,
    preview: Pending,
    sizes: Seq<Sides>,
) -> Seq<Sending> {
    Seq::new(
        preview.files.len(),
        |i: int|
            sending(
                client,
                preview.jid,
                preview.files[i],
                if i == 0 {
                    preview.reply
                } else {
                    None
                },
                size_at(sizes, i),
            ),
    )
}

/// Whether these are sides to send a file at: nothing is read without a client
/// to send to.
pub open spec fn sent_at(client: bool, file: PickedFile, size: Sides) -> bool {
    client ==> drawn_at(file, file.kind, size)
}

/// Whether these are sides to send the selection on the surface at, one pair
/// for each file.
pub open spec fn sizes_read(state: AppState, sizes: Seq<Sides>) -> bool {
    match state.paste_preview {
        Some(preview) => {
            &&& sizes.len() == preview.files.len()
            &&& forall|i: int|
                0 <= i < sizes.len() ==> sent_at(
                    state.client,
                    preview.files[i],
                    #[trigger] sizes[i],
                )
        },
        None => sizes.len() == 0,
    }
}

/// A confirmed selection, to be carried out in order.
#[derive(Debug)]
pub struct Confirmation {
    pub jid: String,
    pub chat_was_visible: bool,
    /// Whether the reply bar is to be taken down.
    pub reply_cleared: bool,
    pub deliveries: Vec<Delivery>,
}

/// The mathematical model of a [`Confirmation`].
pub struct Carried {
    pub jid: Seq<char>,
    pub chat_was_visible: bool,
    pub reply_cleared: bool,
    pub deliveries: Seq<Sending>,
}

/// The models of a run of deliveries, in the same order.
pub open spec fn sending_models(deliveries: Seq<Delivery>) -> Seq<Sending> {
    Seq::new(deliveries.len(), |i: int| deliveries[i]@)
}

impl View for Confirmation {
    type V = Carried;

    open spec fn view(&self) -> Carried {
        Carried {
            jid: self.jid@,
            chat_was_visible: self.chat_was_visible,
            reply_cleared: self.reply_cleared,
            deliveries: sending_models(self.deliveries@),
        }
    }
}

/// The model of an optional confirmation.
pub open spec fn carried_model(confirmation: Option<Confirmation>) -> Option<Carried> {
    match confirmation {
        Some(confirmation) => Some(confirmation@),
        None => None,
    }
}

/// What a confirmation carries out: the selection on the surface, if there is
/// one, its pictures drawn at these sides.
pub open spec fn carried(state: AppState, sizes: Seq<Sides>) -> Option<
    Carried,
> {
    match state.paste_preview {
        Some(preview) => Some(
            Carried {
                jid: preview.jid,
                chat_was_visible: preview.chat_was_visible,
                reply_cleared: still_composing(state, preview.reply),
                deliveries: sendings(state.client, preview, sizes),
            },
        ),
        None => None,
    }
}

/// Whether the timeline follows what a confirmation drew: only where something
/// was drawn in a conversation that was on screen and is still open.
pub open spec fn follows(
    state: AppState,
    jid: Seq<char>,
    chat_was_visible: bool,
    drawn: Seq<bool>,
) -> bool {
    &&& drawn.contains(true)
    &&& chat_was_visible
    &&& state.destination is Chats
    &&& state.selected_chat == Some(jid)
}

impl WhatsAppApp {
    /// The application before anything has happened.
    pub fn new() -> (app: WhatsAppApp)
        ensures
            app@ == initial(),
    {
        let app = WhatsAppApp {
            paste_preview: None,
            pending_attachment_previews: VecDeque::new(),
            reply_to: None,
            destination: Destination::Chats,
            selected_chat: None,
            visible_chat: None,
            connected: false,
            client: false,
            file_drop_listener: false,
        };
        assert(app@.waiting =~= initial().waiting);
        app
    }

    /// Put one accepted selection behind the shared confirmation surface.
    ///
    /// Picker, drop and clipboard reads may overlap before their first result
    /// arrives. First in, first out makes that race visible as sequential
    /// confirmations rather than losing the later files.
    pub fn queue_paste_preview(&mut self, preview: PendingPastePreview)
        ensures
            final(self)@ == queued(old(self)@, preview@),
    {
        if self.paste_preview.is_none() {
            self.paste_preview = Some(preview);
        } else {
            self.pending_attachment_previews.push_back(preview);
        }
        assert(self@.waiting =~= queued(old(self)@, preview@).waiting);
    }

    /// Move the selection that has waited longest onto a free surface.
    pub fn show_next_paste_preview(&mut self)
        ensures
            final(self)@ == next_shown(old(self)@),
    {
        if self.paste_preview.is_none() {
            self.paste_preview = self.pending_attachment_previews.pop_front();
        }
        assert(self@.waiting =~= next_shown(old(self)@).waiting);
    }

    /// Take the selection off the surface without sending it. Answers whether
    /// there was one.
    pub fn cancel_paste_preview(&mut self) -> (cancelled: bool)
        ensures
            cancelled == (old(self)@.paste_preview is Some),
            final(self)@ == dismissed(old(self)@),
    {
        let cancelled = self.paste_preview.take().is_some();
        if cancelled {
            self.show_next_paste_preview();
        }
        cancelled
    }

    /// Consume the draft that a send is answering, if it is still that draft.
    ///
    /// One picked up while the chooser was open is answering something else,
    /// and clearing it would take down a reply bar that is still in use. The
    /// captured draft is quoted either way.
    pub fn take_reply_draft(&mut self, reply: Option<ReplyDraft>) -> (taken: TakenReply)
        ensures
            quote_model(taken.quoted) == draft_model(reply),
            taken.cleared == still_composing(old(self)@, draft_model(reply)),
            final(self)@ == reply_taken(old(self)@, draft_model(reply)),
    {
        match reply {
            None => TakenReply { quoted: None, cleared: false },
            Some(draft) => {
                let cleared = match &self.reply_to {
                    Some(current) => same_text(
                        current.message_id.as_str(),
                        draft.message_id.as_str(),
                    ),
                    None => false,
                };
                if cleared {
                    self.reply_to = None;
                }
                TakenReply { quoted: Some(QuotedMessage::from(draft)), cleared }
            },
        }
    }

    /// Whether a listener for file drops has to be installed.
    pub fn ensure_file_drop(&self) -> (install: bool)
        ensures
            install == !self@.file_drop_listener,
    {
        !self.file_drop_listener
    }

    /// Note what came of installing the listener. A failure changes nothing,
    /// so that installing is tried again, and comes back as the line to log.
    pub fn file_drop_installed(&mut self, outcome: Result<(), String>) -> (warning: Option<String>)
        ensures
            final(self)@ == (match outcome {
                Ok(_) => AppState { file_drop_listener: true, ..old(self)@ },
                Err(_) => old(self)@,
            }),
            optional_text(warning) == (match outcome {
                Ok(_) => None,
                Err(error) => Some("file drops are unavailable: "@ + error@),
            }),
    {
        match outcome {
            Ok(_) => {
                self.file_drop_listener = true;
                None
            },
            Err(error) => {
                let mut warning = "file drops are unavailable: ".to_owned();
                warning.append(error.as_str());
                Some(warning)
            },
        }
    }

    /// Ask for files under a category.
    ///
    /// The conversation and the draft travel with the question rather than
    /// being read again at the end: somebody who picks a file and then opens
    /// another conversation meant to send it to the first. The draft is copied
    /// and not taken, for the chooser can be dismissed.
    pub fn attach_category<C>(&self, category: C) -> (preparation: Preparation<C>)
        ensures
            preparation@ == prepared(self@, category),
    {
        if self.paste_preview.is_some() {
            return Preparation::Ignored;
        }
        match &self.selected_chat {
            None => Preparation::Ignored,
            Some(jid) => {
                if !self.connected {
                    Preparation::Refused {
                        notice: Notice::problem(
                            "Files cannot be sent right now: not connected.".to_owned(),
                        ),
                    }
                } else {
                    Preparation::Ready {
                        jid: jid.clone(),
                        reply: copy_draft(&self.reply_to),
                        category,
                    }
                }
            },
        }
    }

    /// Whether dropped files can be read, and what they go to.
    ///
    /// The confirmation surface owns the one pending selection: no read is
    /// started behind it.
    pub fn prepare_file_drop(&self) -> (preparation: Preparation<()>)
        ensures
            preparation@ == prepared_drop(self@),
    {
        match self.destination {
            Destination::Chats => self.attach_category(()),
            Destination::Elsewhere => Preparation::Ignored,
        }
    }

    /// Keep what was chosen behind one confirmation, and say what could not be
    /// accepted.
    ///
    /// Each refusal is a line of its own, for it names its own file. A choice
    /// without accepted files leaves nothing to confirm and consumes no draft.
    pub fn finish_attaching(
        &mut self,
        jid: &str,
        reply: Option<ReplyDraft>,
        chosen: Result<Chosen, String>,
    ) -> (outcome: Attached)
        ensures
            outcome@ == attach_outcome(choice_model(chosen)),
            final(self)@ == attached(
                old(self)@,
                jid@,
                draft_model(reply),
                choice_model(chosen),
            ),
    {
        let chosen = match chosen {
            Ok(chosen) => chosen,
            Err(error) => {
                return Attached::Failed { notice: Notice::problem(error) };
            },
        };
        if chosen.is_empty() {
            return Attached::Dismissed;
        }
        let Chosen { files, refused } = chosen;
        let notices = refusal_notices(refused);
        if files.len() == 0 {
            return Attached::Refused { notices };
        }
        let images = preview_images(files.as_slice());
        let chat_was_visible = holds_text(&self.visible_chat, jid);
        self.queue_paste_preview(
            PendingPastePreview { jid: jid.to_owned(), reply, files, images, chat_was_visible },
        );
        Attached::Queued { notices }
    }

    /// Send one file, the sides of the picture being known: what to hand to the
    /// session and what to draw for it.
    ///
    /// The bubble's media is made before the bytes are handed over, because
    /// for a picture it is those bytes.
    pub fn send_sized(
        &self,
        jid: &str,
        file: Picked,
        quoted: Option<QuotedMessage>,
        size: Sides,
    ) -> (delivery: Delivery)
        ensures
            delivery@ == sending(self@.client, jid@, file@, quote_model(quoted), size),
    {
        if !self.client {
            let mut text = file.file_name.clone();
            text.append(" could not be sent: not connected.");
            return Delivery::Refused { file, notice: Notice::problem(text) };
        }
        let media = echo_sized(&file, file.kind, size);
        let attachment = Attachment {
            bytes: file.bytes,
            kind: file.kind,
            mime_type: file.mime_type,
            file_name: file.file_name,
            caption: None,
        };
        Delivery::Sent { outgoing: Outgoing { jid: jid.to_owned(), attachment, media, quoted } }
    }

    /// The sides to send a file at. No header is read without a client.
    fn send_size(&self, file: &Picked) -> (size: Sides)
        ensures
            sent_at(self@.client, file@, size),
    {
        if self.client {
            picture_size(file, file.kind)
        } else {
            (None, None)
        }
    }

    /// Send one file: what to hand to the session and what to draw for it, a
    /// picture at the size its header gives.
    pub fn send_attachment(
        &self,
        jid: &str,
        file: Picked,
        quoted: Option<QuotedMessage>,
    ) -> (delivery: Delivery)
        ensures
            exists|size: Sides| #[trigger]
                sent_at(self@.client, file@, size) && delivery@ == sending(
                    self@.client,
                    jid@,
                    file@,
                    quote_model(quoted),
                    size,
                ),
    {
        let size = self.send_size(&file);
        self.send_sized(jid, file, quoted, size)
    }

    /// Send the selection on the surface, the sides of its pictures being
    /// known.
    ///
    /// Only the first file is quoted. The selection leaves the surface with
    /// this call, so a repeated activation cannot send it twice.
    pub fn confirm_sized(&mut self, sizes: &[Sides]) -> (confirmation: Option<
        Confirmation,
    >)
        ensures
            carried_model(confirmation) == carried(old(self)@, sizes@),
            final(self)@ == confirmed(old(self)@),
    {
        let preview = match self.paste_preview.take() {
            Some(preview) => preview,
            None => {
                return None;
            },
        };
        let ghost pending = preview@;
        let PendingPastePreview { jid, reply, files, images: _, chat_was_visible } = preview;
        let taken = self.take_reply_draft(reply);
        let mut quoted = taken.quoted;
        let mut deliveries: Vec<Delivery> = Vec::new();
        let ghost chosen = files@;
        for file in each: files
            invariant
                each.seq() == chosen,
                pending.files == file_models(chosen),
                pending.jid == jid@,
                deliveries@.len() == each.index(),
                self@.client == old(self)@.client,
                quote_model(quoted) == (if each.index() == 0 {
                    pending.reply
                } else {
                    None
                }),
                forall|k: int|
                    0 <= k < each.index() ==> (#[trigger] deliveries@[k])@ == sendings(
                        old(self)@.client,
                        pending,
                        sizes@,
                    )[k],
        {
            let i: usize = deliveries.len();
            let size = if i < sizes.len() {
                sizes[i]
            } else {
                (None, None)
            };
            let delivery = self.send_sized(jid.as_str(), file, quoted.take(), size);
            deliveries.push(delivery);
        }
        self.show_next_paste_preview();
        let confirmation = Confirmation {
            jid,
            chat_was_visible,
            reply_cleared: taken.cleared,
            deliveries,
        };
        assert(confirmation@.deliveries =~= sendings(old(self)@.client, pending, sizes@));
        Some(confirmation)
    }

    /// The sides to send the selection on the surface at.
    fn preview_sizes(&self) -> (sizes: Vec<Sides>)
        ensures
            sizes_read(self@, sizes@),
    {
        let mut sizes: Vec<Sides> = Vec::new();
        if let Some(preview) = &self.paste_preview {
            let mut i: usize = 0;
            while i < preview.files.len()
                invariant
                    i <= preview.files@.len(),
                    sizes@.len() == i,
                    forall|k: int|
                        0 <= k < i ==> sent_at(
                            self@.client,
                            preview.files@[k]@,
                            #[trigger] sizes@[k],
                        ),
                decreases preview.files@.len() - i,
            {
                let size = self.send_size(&preview.files[i]);
                sizes.push(size);
                i += 1;
            }
        }
        sizes
    }

    /// Send the selection on the surface, each picture drawn at the size its
    /// header gives.
    pub fn confirm_paste_preview(&mut self) -> (confirmation: Option<Confirmation>)
        ensures
            exists|sizes: Seq<Sides>| #[trigger]
                sizes_read(old(self)@, sizes) && carried_model(confirmation) == carried(
                    old(self)@,
                    sizes,
                ),
            final(self)@ == confirmed(old(self)@),
    {
        let sizes = self.preview_sizes();
        self.confirm_sized(sizes.as_slice())
    }

    /// Whether the timeline follows a confirmed selection down, given for each
    /// file whether its bubble was drawn.
    pub fn follows_sent(&self, confirmation: &Confirmation, drawn: &[bool]) -> (follow: bool)
        ensures
            follow == follows(
                self@,
                confirmation@.jid,
                confirmation@.chat_was_visible,
                drawn@,
            ),
    {
        let mut any = false;
        let mut i: usize = 0;
        while i < drawn.len()
            invariant
                i <= drawn@.len(),
                any == exists|k: int| 0 <= k < i && drawn@[k],
            decreases drawn@.len() - i,
        {
            any = any || drawn[i];
            i += 1;
        }
        let chats_open = match self.destination {
            Destination::Chats => true,
            Destination::Elsewhere => false,
        };
        any && confirmation.chat_was_visible && chats_open && holds_text(
            &self.selected_chat,
            confirmation.jid.as_str(),
        )
    }
}

/// One line for each refusal, in order.
fn refusal_notices(refused: Vec<String>) -> (notices: Vec<Notice>)
    ensures
        line_models(notices@) == refusal_lines(texts(refused@)),
{
    let ghost lines = refused@;
    let mut notices: Vec<Notice> = Vec::new();
    for line in each: refused
        invariant
            each.seq() == lines,
            notices@.len() == each.index(),
            forall|k: int|
                0 <= k < each.index() ==> (#[trigger] notices@[k])@ == problem(lines[k]@),
    {
        notices.push(Notice::problem(line));
    }
    assert(line_models(notices@) =~= refusal_lines(texts(lines)));
    notices
}

/// What the identifier of a file sent from here begins with.
pub const LOCAL_ID_PREFIX: &'static str = "local_media";

/// What is handed to the session for one file.
#[derive(Debug)]
pub struct Upload {
    pub jid: String,
    pub attachment: Attachment,
    pub local_id: String,
    pub quoted: Option<QuotedMessage>,
}

impl Outgoing {
    /// What to hand to the session and the bubble to draw, under one
    /// identifier.
    ///
    /// The bubble shows the quote too, or the sender would see a bare photo
    /// where the recipient sees a reply.
    pub fn identified(self, local_id: String) -> (sent: (Upload, ChatMessage))
        ensures
            sent.0.jid@ == self.jid@,
            sent.0.attachment@ == self.attachment@,
            sent.0.local_id@ == local_id@,
            quote_model(sent.0.quoted) == quote_model(self.quoted),
            sent.1@ == (Bubble {
                id: local_id@,
                text: Seq::empty(),
                media: self.media@,
                quoted: quote_model(self.quoted),
            }),
    {
        let Outgoing { jid, attachment, media, quoted } = self;
        let mut message = ChatMessage::new_outgoing_with_media(
            local_id.clone(),
            String::new(),
            media,
        );
        message.quoted = copy_quote(&quoted);
        (Upload { jid, attachment, local_id, quoted }, message)
    }
}

} // verus!
