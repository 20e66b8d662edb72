//! Drafts, quotes, bubbles and the lines shown to the person.

use vstd::prelude::*;
use vstd::std_specs::convert::FromSpec;

use crate::echo::{Content, MediaContent};

verus! {

/// How a line on screen is coloured.
#[derive(Clone, Copy, PartialEq, Eq, Debug, Structural)]
pub enum Tone {
    Problem,
}

/// One line to put on screen.
#[derive(Debug)]
pub struct Notice {
    pub text: String,
    pub tone: Tone,
}

/// The mathematical model of a [`Notice`].
pub struct Line {
    pub text: Seq<char>,
    pub tone: Tone,
}

impl View for Notice {
    type V = Line;

    open spec fn view(&self) -> Line {
        Line { text: self.text@, tone: self.tone }
    }
}

/// A line that reports a problem.
pub open spec fn problem(text: Seq<char>) -> Line {
    Line { text, tone: Tone::Problem }
}

impl Notice {
    /// A line that reports a problem.
    pub fn problem(text: String) -> (notice: Notice)
        ensures
            notice@ == problem(text@),
    {
        Notice { text, tone: Tone::Problem }
    }
}

/// The message that is being answered.
#[derive(Debug)]
pub struct ReplyDraft {
    pub message_id: String,
    pub sender: String,
    pub sender_name: String,
    pub preview: String,
    /// The kind of the message, as a code of the front end's own, where it has
    /// one. It is carried along and never read.
    pub kind: Option<u32>,
}

/// The mathematical model of a [`ReplyDraft`] and of a [`QuotedMessage`].
pub struct Reference {
    pub message_id: Seq<char>,
    pub sender: Seq<char>,
    pub sender_name: Seq<char>,
    pub preview: Seq<char>,
    pub kind: Option<u32>,
}

impl View for ReplyDraft {
    type V = Reference;

    open spec fn view(&self) -> Reference {
        Reference {
            message_id: self.message_id@,
            sender: self.sender@,
            sender_name: self.sender_name@,
            preview: self.preview@,
            kind: self.kind,
        }
    }
}

impl Clone for ReplyDraft {
    fn clone(&self) -> (copy: Self)
        ensures
            copy@ == self@,
    {
        ReplyDraft {
            message_id: self.message_id.clone(),
            sender: self.sender.clone(),
            sender_name: self.sender_name.clone(),
            preview: self.preview.clone(),
            kind: self.kind,
        }
    }
}

/// The model of an optional draft.
pub open spec fn draft_model(draft: Option<ReplyDraft>) -> Option<Reference> {
    match draft {
        Some(draft) => Some(draft@),
        None => None,
    }
}

/// A copy of an optional draft.
pub fn copy_draft(draft: &Option<ReplyDraft>) -> (copy: Option<ReplyDraft>)
    ensures
        draft_model(copy) == draft_model(*draft),
{
    match draft {
        Some(draft) => Some(draft.clone()),
        None => None,
    }
}

/// The message that a sent one answers.
#[derive(Debug)]
pub struct QuotedMessage {
    pub message_id: String,
    pub sender: String,
    pub sender_name: String,
    pub preview: String,
    /// The kind of the message, as a code of the front end's own, where it has
    /// one. It is carried along and never read.
    pub kind: Option<u32>,
}

impl View for QuotedMessage {
    type V = Reference;

    open spec fn view(&self) -> Reference {
        Reference {
            message_id: self.message_id@,
            sender: self.sender@,
            sender_name: self.sender_name@,
            preview: self.preview@,
            kind: self.kind,
        }
    }
}

impl Clone for QuotedMessage {
    fn clone(&self) -> (copy: Self)
        ensures
            copy@ == self@,
    {
        QuotedMessage {
            message_id: self.message_id.clone(),
            sender: self.sender.clone(),
            sender_name: self.sender_name.clone(),
            preview: self.preview.clone(),
            kind: self.kind,
        }
    }
}

/// The model of an optional quote.
pub open spec fn quote_model(quoted: Option<QuotedMessage>) -> Option<Reference> {
    match quoted {
        Some(quoted) => Some(quoted@),
        None => None,
    }
}

/// A copy of an optional quote.
pub fn copy_quote(quoted: &Option<QuotedMessage>) -> (copy: Option<QuotedMessage>)
    ensures
        quote_model(copy) == quote_model(*quoted),
{
    match quoted {
        Some(quoted) => Some(quoted.clone()),
        None => None,
    }
}

impl From<ReplyDraft> for QuotedMessage {
    fn from(draft: ReplyDraft) -> (quoted: QuotedMessage) {
        QuotedMessage {
            message_id: draft.message_id,
            sender: draft.sender,
            sender_name: draft.sender_name,
            preview: draft.preview,
            kind: draft.kind,
        }
    }
}

impl vstd::std_specs::convert::FromSpecImpl<ReplyDraft> for QuotedMessage {
    open spec fn obeys_from_spec() -> bool {
        true
    }

    open spec fn from_spec(draft: ReplyDraft) -> QuotedMessage {
        QuotedMessage {
            message_id: draft.message_id,
            sender: draft.sender,
            sender_name: draft.sender_name,
            preview: draft.preview,
            kind: draft.kind,
        }
    }
}

/// The bubble of a message that was sent from here.
#[derive(Debug)]
pub struct ChatMessage {
    pub id: String,
    pub text: String,
    pub media: MediaContent,
    pub quoted: Option<QuotedMessage>,
}

/// The mathematical model of a [`ChatMessage`].
pub struct Bubble {
    pub id: Seq<char>,
    pub text: Seq<char>,
    pub media: Content,
    pub quoted: Option<Reference>,
}

impl View for ChatMessage {
    type V = Bubble;

    open spec fn view(&self) -> Bubble {
        Bubble {
            id: self.id@,
            text: self.text@,
            media: self.media@,
            quoted: quote_model(self.quoted),
        }
    }
}

impl ChatMessage {
    /// A message sent from here, with media and no quote yet.
    pub fn new_outgoing_with_media(
        id: String,
        text: String,
        media: MediaContent,
    ) -> (message: ChatMessage)
        ensures
            message@ == (Bubble { id: id@, text: text@, media: media@, quoted: None }),
    {
        ChatMessage { id, text, media, quoted: None }
    }
}

/// Law: a problem is told in its own words and as a problem.
pub proof fn a_problem_is_told_in_its_own_words(text: Seq<char>)
    ensures
        problem(text).text == text,
        problem(text).tone is Problem,
{
}

/// Law: a line is modelled by its own text and tone.
pub proof fn the_model_of_a_line_is_whole(notice: Notice)
    ensures
        notice@.text == notice.text@,
        notice@.tone == notice.tone,
{
}

/// Law: the model of a draft, and of an optional one, holds every field of it.
pub proof fn the_model_of_a_draft_is_whole(draft: ReplyDraft)
    ensures
        draft@.message_id == draft.message_id@,
        draft@.sender == draft.sender@,
        draft@.sender_name == draft.sender_name@,
        draft@.preview == draft.preview@,
        draft@.kind == draft.kind,
        draft_model(Some(draft)) == Some(draft@),
        draft_model(None) is None,
{
}

/// Law: the model of a quote, and of an optional one, holds every field of it.
pub proof fn the_model_of_a_quote_is_whole(quoted: QuotedMessage)
    ensures
        quoted@.message_id == quoted.message_id@,
        quoted@.sender == quoted.sender@,
        quoted@.sender_name == quoted.sender_name@,
        quoted@.preview == quoted.preview@,
        quoted@.kind == quoted.kind,
        quote_model(Some(quoted)) == Some(quoted@),
        quote_model(None) is None,
{
}

/// Law: a quote says of the answered message what the draft said, field by
/// field.
pub proof fn a_quote_says_what_the_draft_said(draft: ReplyDraft)
    ensures
        QuotedMessage::from_spec(draft).message_id == draft.message_id,
        QuotedMessage::from_spec(draft).sender == draft.sender,
        QuotedMessage::from_spec(draft).sender_name == draft.sender_name,
        QuotedMessage::from_spec(draft).preview == draft.preview,
        QuotedMessage::from_spec(draft).kind == draft.kind,
{
}

/// Law: the model of a bubble holds every field of it.
pub proof fn the_model_of_a_bubble_is_whole(message: ChatMessage)
    ensures
        message@.id == message.id@,
        message@.text == message.text@,
        message@.media == message.media@,
        message.quoted matches Some(quoted) ==> message@.quoted == Some(quoted@),
        message.quoted is None ==> message@.quoted is None,
{
}

} // verus!
