//! What is drawn for a file that is on its way.

use std::sync::Arc;

use vstd::prelude::*;

use crate::dimensions::{header_reads, image_size, sized, Sides};
use crate::media::{MediaType, OutgoingMedia};
use crate::picked::{Picked, PickedFile};
use crate::text::optional_text;

verus! {

/// The media of a message, as its bubble draws it.
#[derive(Debug)]
pub enum MediaContent {
    /// A picture held in `data`; `unfetched` says whether the bytes of the
    /// full picture are still to come.
    Image {
        data: Arc<Vec<u8>>,
        mime_type: String,
        unfetched: bool,
        width: Option<u32>,
        height: Option<u32>,
    },
    /// A video with a poster frame and a duration, where they are known.
    Video { poster: Arc<Vec<u8>>, duration: Option<u32> },
    /// A file that is drawn as its name and type.
    Document { mime_type: String, file_name: Option<String> },
}

/// The mathematical model of a [`MediaContent`].
pub enum Content {
    Image {
        data: Seq<u8>,
        mime_type: Seq<char>,
        unfetched: bool,
        width: Option<u32>,
        height: Option<u32>,
    },
    Video { poster: Seq<u8>, duration: Option<u32> },
    Document { mime_type: Seq<char>, file_name: Option<Seq<char>> },
}

impl View for MediaContent {
    type V = Content;

    open spec fn view(&self) -> Content {
        match *self {
            MediaContent::Image { data, mime_type, unfetched, width, height } => Content::Image {
                data: data@,
                mime_type: mime_type@,
                unfetched,
                width,
                height,
            },
            MediaContent::Video { poster, duration } => Content::Video { poster: poster@, duration },
            MediaContent::Document { mime_type, file_name } => Content::Document {
                mime_type: mime_type@,
                file_name: optional_text(file_name),
            },
        }
    }
}

impl Content {
    /// What the content is drawn as.
    pub open spec fn media_type(self) -> MediaType {
        match self {
            Content::Image { .. } => MediaType::Image,
            Content::Video { .. } => MediaType::Video,
            Content::Document { .. } => MediaType::Document,
        }
    }

    /// The bytes held for drawing.
    pub open spec fn data(self) -> Seq<u8> {
        match self {
            Content::Image { data, .. } => data,
            Content::Video { poster, .. } => poster,
            Content::Document { .. } => Seq::empty(),
        }
    }

    /// The file name that is drawn, where there is one.
    pub open spec fn file_name(self) -> Option<Seq<char>> {
        match self {
            Content::Document { file_name, .. } => file_name,
            _ => None,
        }
    }
}

impl MediaContent {
    /// What the content is drawn as.
    pub fn media_type(&self) -> (media_type: MediaType)
        ensures
            media_type == self@.media_type(),
    {
        match self {
            MediaContent::Image { .. } => MediaType::Image,
            MediaContent::Video { .. } => MediaType::Video,
            MediaContent::Document { .. } => MediaType::Document,
        }
    }

    /// The bytes held for drawing.
    pub fn data(&self) -> (data: &[u8])
        ensures
            data@ == self@.data(),
    {
        match self {
            MediaContent::Image { data, .. } => data.as_slice(),
            MediaContent::Video { poster, .. } => poster.as_slice(),
            MediaContent::Document { .. } => &[],
        }
    }

    /// The file name that is drawn, where there is one.
    pub fn file_name(&self) -> (file_name: Option<&str>)
        ensures
            match file_name {
                Some(name) => self@.file_name() == Some(name@),
                None => self@.file_name() is None,
            },
    {
        match self {
            MediaContent::Document { file_name: Some(name), .. } => Some(name.as_str()),
            _ => None,
        }
    }
}

/// What is drawn for a file sent as `kind`, given the sides of the picture.
pub open spec fn echo(
    file: PickedFile,
    kind: OutgoingMedia,
    size: Sides,
) -> Content {
    match kind {
        OutgoingMedia::Image => Content::Image {
            data: file.bytes,
            mime_type: file.mime_type,
            unfetched: false,
            width: size.0,
            height: size.1,
        },
        OutgoingMedia::Video => Content::Video { poster: Seq::empty(), duration: None },
        OutgoingMedia::Document => Content::Document {
            mime_type: file.mime_type,
            file_name: Some(file.file_name),
        },
    }
}

/// Whether these are sides to draw a file at: for a picture, sides that its own
/// header can give. Nothing else is drawn at a size.
pub open spec fn drawn_at(
    file: PickedFile,
    kind: OutgoingMedia,
    size: Sides,
) -> bool {
    kind is Image ==> sized(file.bytes, size)
}

/// The sides to draw a file at. Only a picture's header is read.
pub fn picture_size(file: &Picked, kind: OutgoingMedia) -> (size: Sides)
    ensures
        drawn_at(file@, kind, size),
        !(kind is Image) ==> size == (None::<u32>, None::<u32>),
{
    match kind {
        OutgoingMedia::Image => image_size(file.bytes.as_slice()),
        _ => (None, None),
    }
}

/// What to draw for a file that is on its way, its sides being known.
///
/// Only a picture carries bytes: they are the picture. A video and a document
/// have nothing to draw until the store hands the message back.
pub fn echo_sized(
    file: &Picked,
    kind: OutgoingMedia,
    size: Sides,
) -> (content: MediaContent)
    ensures
        content@ == echo(file@, kind, size),
{
    match kind {
        OutgoingMedia::Image => {
            let data = file.bytes.clone();
            assert(data@ =~= file.bytes@);
            MediaContent::Image {
                data: Arc::new(data),
                mime_type: file.mime_type.clone(),
                unfetched: false,
                width: size.0,
                height: size.1,
            }
        },
        OutgoingMedia::Video => MediaContent::Video {
            poster: Arc::new(Vec::new()),
            duration: None,
        },
        OutgoingMedia::Document => MediaContent::Document {
            mime_type: file.mime_type.clone(),
            file_name: Some(file.file_name.clone()),
        },
    }
}

/// What to draw for a file that is on its way.
///
/// A picture is drawn from the bytes in hand, at the size its header gives:
/// the sender sees what they sent, not a placeholder that resolves into it.
pub fn echo_of(file: &Picked, kind: OutgoingMedia) -> (content: MediaContent)
    ensures
        exists|size: Sides| #[trigger]
            drawn_at(file@, kind, size) && content@ == echo(file@, kind, size),
{
    let size = picture_size(file, kind);
    echo_sized(file, kind, size)
}

/// Law: the kind a file is sent as decides what is drawn, whatever its MIME
/// type. A picture is drawn from its own bytes, with nothing left to fetch;
/// nothing else holds a byte; and a document keeps its name.
pub proof fn only_a_picture_echoes_its_bytes(
    file: PickedFile,
    kind: OutgoingMedia,
    size: Sides,
)
    ensures
        kind is Image ==> echo(file, kind, size).media_type() is Image && echo(
            file,
            kind,
            size,
        ).data() == file.bytes && !echo(file, kind, size)->unfetched,
        kind is Video ==> echo(file, kind, size).media_type() is Video && echo(
            file,
            kind,
            size,
        ).data().len() == 0,
        kind is Document ==> echo(file, kind, size).media_type() is Document && echo(
            file,
            kind,
            size,
        ).data().len() == 0 && echo(file, kind, size).file_name() == Some(file.file_name),
{
}

/// Law: a picture's sides are known both or neither.
pub proof fn sides_are_known_together(bytes: Seq<u8>, size: Sides)
    requires
        sized(bytes, size),
    ensures
        size.0 is Some <==> size.1 is Some,
{
}

/// Law: what is drawn for a file holds, field by field, what the file and the
/// given sides say: a picture its own bytes, type and both sides, nothing left
/// to fetch; a video no poster and no duration; a document its type and name.
pub proof fn an_echo_is_drawn_from_the_file(file: PickedFile, kind: OutgoingMedia, size: Sides)
    ensures
        kind is Image ==> match echo(file, kind, size) {
            Content::Image { data, mime_type, unfetched, width, height } => {
                &&& data == file.bytes
                &&& mime_type == file.mime_type
                &&& !unfetched
                &&& width == size.0
                &&& height == size.1
            },
            _ => false,
        },
        kind is Video ==> match echo(file, kind, size) {
            Content::Video { poster, duration } => poster.len() == 0 && duration is None,
            _ => false,
        },
        kind is Document ==> match echo(file, kind, size) {
            Content::Document { mime_type, file_name } => mime_type == file.mime_type && file_name
                == Some(file.file_name),
            _ => false,
        },
{
}

/// Law: a picture is drawn at sides that its own header can give.
pub proof fn a_picture_is_drawn_at_its_own_size(file: PickedFile, size: Sides)
    requires
        drawn_at(file, OutgoingMedia::Image, size),
    ensures
        exists|dimensions: Option<(u32, u32)>|
            #![trigger header_reads(file.bytes, dimensions)]
            header_reads(file.bytes, dimensions) && match dimensions {
                Some(pair) => size.0 == Some(pair.0) && size.1 == Some(pair.1),
                None => size.0 is None && size.1 is None,
            },
{
}

/// Law: content is drawn as what it is, from the bytes and under the name that
/// it holds.
pub proof fn content_is_drawn_as_what_it_is(content: Content)
    ensures
        content matches Content::Image { data, .. } ==> content.media_type() is Image
            && content.data() == data && content.file_name() is None,
        content matches Content::Video { poster, .. } ==> content.media_type() is Video
            && content.data() == poster && content.file_name() is None,
        content matches Content::Document { file_name, .. } ==> content.media_type() is Document
            && content.data().len() == 0 && content.file_name() == file_name,
{
}

/// Law: the model of content holds every field of it.
pub proof fn the_model_of_content_is_whole(content: MediaContent)
    ensures
        match content {
            MediaContent::Image { data, mime_type, unfetched, width, height } => content@ == (
            Content::Image { data: data@, mime_type: mime_type@, unfetched, width, height }),
            MediaContent::Video { poster, duration } => content@ == (Content::Video {
                poster: poster@,
                duration,
            }),
            MediaContent::Document { mime_type, file_name: Some(name) } => content@ == (
            Content::Document { mime_type: mime_type@, file_name: Some(name@) }),
            MediaContent::Document { mime_type, file_name: None } => content@ == (
            Content::Document { mime_type: mime_type@, file_name: None }),
        },
{
}

} // verus!
