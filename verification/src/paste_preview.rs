//! The confirmation surface shared by clipboard, picker and file drops.

use std::sync::Arc;

use vstd::prelude::*;
use vstd::string::*;

use crate::media::{format_of, mime_to_image_format, ImageFormat, OutgoingMedia};
use crate::picked::{file_models, Picked, PickedFile};

verus! {

/// A picture to show on the surface.
#[derive(Debug)]
pub struct PreviewImage {
    pub format: ImageFormat,
    pub bytes: Vec<u8>,
}

/// The mathematical model of a [`PreviewImage`].
pub struct Picture {
    pub format: ImageFormat,
    pub bytes: Seq<u8>,
}

impl View for PreviewImage {
    type V = Picture;

    open spec fn view(&self) -> Picture {
        Picture { format: self.format, bytes: self.bytes@ }
    }
}

/// The model of an optional picture.
pub open spec fn picture_model(image: Option<Arc<PreviewImage>>) -> Option<Picture> {
    match image {
        Some(image) => Some(image@),
        None => None,
    }
}

/// The models of a run of optional pictures, in the same order.
pub open spec fn picture_models(images: Seq<Option<Arc<PreviewImage>>>) -> Seq<Option<Picture>> {
    Seq::new(images.len(), |i: int| picture_model(images[i]))
}

/// The picture that stands for a file, if one can be shown: only for a file
/// that goes out as a picture, in a format that can be shown.
pub open spec fn thumbnail(file: PickedFile) -> Option<Picture> {
    match (file.kind, format_of(file.mime_type)) {
        (OutgoingMedia::Image, Some(format)) => Some(Picture { format, bytes: file.bytes }),
        _ => None,
    }
}

/// The pictures that stand for a run of files, in the same order.
pub open spec fn thumbnails(files: Seq<PickedFile>) -> Seq<Option<Picture>> {
    Seq::new(files.len(), |i: int| thumbnail(files[i]))
}

/// The picture that stands for a file, if one can be shown.
fn preview_image(file: &Picked) -> (image: Option<Arc<PreviewImage>>)
    ensures
        picture_model(image) == thumbnail(file@),
{
    match file.kind {
        OutgoingMedia::Image => match mime_to_image_format(file.mime_type.as_str()) {
            Some(format) => {
                let bytes = file.bytes.clone();
                assert(bytes@ =~= file.bytes@);
                Some(Arc::new(PreviewImage { format, bytes }))
            },
            None => None,
        },
        _ => None,
    }
}

/// The pictures for a pending selection, made once while the surface owns the
/// files.
///
/// Videos and documents have no still here: their card carries the identity
/// that will be sent instead of pretending a thumbnail exists.
pub fn preview_images(files: &[Picked]) -> (images: Vec<Option<Arc<PreviewImage>>>)
    ensures
        picture_models(images@) == thumbnails(file_models(files@)),
{
    let mut images: Vec<Option<Arc<PreviewImage>>> = Vec::new();
    let mut i: usize = 0;
    while i < files.len()
        invariant
            i <= files@.len(),
            images@.len() == i,
            forall|k: int|
                0 <= k < i ==> picture_model(#[trigger] images@[k]) == thumbnail(files@[k]@),
        decreases files@.len() - i,
    {
        images.push(preview_image(&files[i]));
        i += 1;
    }
    assert(picture_models(images@) =~= thumbnails(file_models(files@)));
    images
}

/// What the surface calls a kind.
pub open spec fn label_of(kind: OutgoingMedia) -> Seq<char> {
    match kind {
        OutgoingMedia::Image => "Imagem"@,
        OutgoingMedia::Video => "Vídeo"@,
        OutgoingMedia::Document => "Documento"@,
    }
}

/// What the surface calls a kind.
pub fn media_label(kind: OutgoingMedia) -> (label: &'static str)
    ensures
        label@ == label_of(kind),
{
    match kind {
        OutgoingMedia::Image => "Imagem",
        OutgoingMedia::Video => "Vídeo",
        OutgoingMedia::Document => "Documento",
    }
}

/// The lines that identify a file on the surface.
#[derive(Debug)]
pub struct FileLines {
    pub label: &'static str,
    pub name: String,
    pub mime_type: String,
    /// The length of the file in bytes.
    pub size: u64,
}

/// The mathematical model of a [`FileLines`].
pub struct Identity {
    pub label: Seq<char>,
    pub name: Seq<char>,
    pub mime_type: Seq<char>,
    pub size: nat,
}

impl View for FileLines {
    type V = Identity;

    open spec fn view(&self) -> Identity {
        Identity {
            label: self.label@,
            name: self.name@,
            mime_type: self.mime_type@,
            size: self.size as nat,
        }
    }
}

/// The lines that identify a file.
pub open spec fn identity(file: PickedFile) -> Identity {
    Identity {
        label: label_of(file.kind),
        name: file.file_name,
        mime_type: file.mime_type,
        size: file.bytes.len(),
    }
}

/// The lines that identify a file, under its picture or on its card.
pub fn render_file_meta(file: &Picked) -> (lines: FileLines)
    ensures
        lines@ == identity(file@),
{
    FileLines {
        label: media_label(file.kind),
        name: file.file_name.clone(),
        mime_type: file.mime_type.clone(),
        size: file.bytes.len() as u64,
    }
}

impl FileLines {
    /// The last line: the type and, as the caller writes it, the size.
    pub fn detail(&self, size: &str) -> (line: String)
        ensures
            line@ == self@.mime_type + " · "@ + size@,
    {
        let mut line = self.mime_type.clone();
        line.append(" · ");
        line.append(size);
        line
    }
}

/// One file on the surface.
#[derive(Debug)]
pub enum PreviewItem {
    /// The picture, with the identifying lines under it.
    Picture { image: Arc<PreviewImage>, lines: FileLines },
    /// A card that holds the identifying lines alone.
    Card { lines: FileLines },
}

/// The mathematical model of a [`PreviewItem`].
pub enum Item {
    Picture { image: Picture, lines: Identity },
    Card { lines: Identity },
}

impl View for PreviewItem {
    type V = Item;

    open spec fn view(&self) -> Item {
        match *self {
            PreviewItem::Picture { image, lines } => Item::Picture { image: image@, lines: lines@ },
            PreviewItem::Card { lines } => Item::Card { lines: lines@ },
        }
    }
}

/// How one file is shown, given its picture.
pub open spec fn item(file: PickedFile, image: Option<Picture>) -> Item {
    match image {
        Some(image) => Item::Picture { image, lines: identity(file) },
        None => Item::Card { lines: identity(file) },
    }
}

/// The card of a file that has no picture to show.
pub fn render_file_card(file: &Picked) -> (card: PreviewItem)
    ensures
        card@ == item(file@, None),
{
    PreviewItem::Card { lines: render_file_meta(file) }
}

/// How one file is shown.
pub fn render_preview_item(file: &Picked, image: Option<&Arc<PreviewImage>>) -> (shown: PreviewItem)
    ensures
        shown@ == item(
            file@,
            match image {
                Some(image) => Some(image@),
                None => None,
            },
        ),
{
    match image {
        Some(image) => PreviewItem::Picture {
            image: Arc::clone(image),
            lines: render_file_meta(file),
        },
        None => render_file_card(file),
    }
}

/// Everything the surface shows.
#[derive(Debug)]
pub struct PasteSurface {
    pub title: &'static str,
    pub items: Vec<PreviewItem>,
    /// Whether the button that sends can be pressed.
    pub can_send: bool,
}

/// The mathematical model of a [`PasteSurface`].
pub struct Surface {
    pub title: Seq<char>,
    pub items: Seq<Item>,
    pub can_send: bool,
}

impl View for PasteSurface {
    type V = Surface;

    open spec fn view(&self) -> Surface {
        Surface {
            title: self.title@,
            items: Seq::new(self.items@.len(), |i: int| self.items@[i]@),
            can_send: self.can_send,
        }
    }
}

/// The question that the surface asks of this many files.
pub open spec fn question(files: nat) -> Seq<char> {
    if files == 1 {
        "Send this attachment?"@
    } else {
        "Send these attachments?"@
    }
}

/// What the surface shows for a selection: each file that has a place for a
/// picture, in order.
pub open spec fn surface(
    files: Seq<PickedFile>,
    images: Seq<Option<Picture>>,
    can_send: bool,
) -> Surface {
    let shown = if files.len() <= images.len() {
        files.len()
    } else {
        images.len()
    };
    Surface {
        title: question(files.len()),
        items: Seq::new(shown, |i: int| item(files[i], images[i])),
        can_send,
    }
}

/// What the confirmation surface shows for a pending selection.
pub fn render_paste_preview(
    files: &[Picked],
    images: &[Option<Arc<PreviewImage>>],
    can_send: bool,
) -> (shown: PasteSurface)
    ensures
        shown@ == surface(file_models(files@), picture_models(images@), can_send),
{
    let mut items: Vec<PreviewItem> = Vec::new();
    let mut i: usize = 0;
    while i < files.len() && i < images.len()
        invariant
            i <= files@.len(),
            i <= images@.len(),
            items@.len() == i,
            forall|k: int|
                0 <= k < i ==> (#[trigger] items@[k])@ == item(files@[k]@, picture_model(images@[k])),
        decreases files@.len() - i,
    {
        items.push(render_preview_item(&files[i], images[i].as_ref()));
        i += 1;
    }
    let title = if files.len() == 1 {
        "Send this attachment?"
    } else {
        "Send these attachments?"
    };
    let shown = PasteSurface { title, items, can_send };
    assert(shown@.items =~= surface(
        file_models(files@),
        picture_models(images@),
        can_send,
    ).items);
    shown
}

/// Law: a file that does not go out as a picture shows none, whatever its MIME
/// type.
pub proof fn the_kind_wins_over_the_mime_type(file: PickedFile)
    requires
        !(file.kind is Image),
    ensures
        thumbnail(file) is None,
{
}

/// Law: the surface shows every file of a selection, in picker order and with
/// the identity that will be sent, and a picture shows the file's own bytes.
pub proof fn the_surface_keeps_order_and_identity(
    files: Seq<PickedFile>,
    can_send: bool,
    i: int,
)
    requires
        0 <= i < files.len(),
    ensures
        thumbnails(files).len() == files.len(),
        surface(files, thumbnails(files), can_send).items.len() == files.len(),
        match surface(files, thumbnails(files), can_send).items[i] {
            Item::Picture { image, lines } => image.bytes == files[i].bytes && lines == identity(
                files[i],
            ),
            Item::Card { lines } => lines == identity(files[i]),
        },
{
}

/// Law: a file shows a picture just where it goes out as one in a format that
/// can be shown, and the picture is the file's own bytes in that format.
pub proof fn a_thumbnail_is_the_file_itself(file: PickedFile)
    ensures
        thumbnail(file) is Some <==> file.kind is Image && format_of(file.mime_type) is Some,
        thumbnail(file) matches Some(picture) ==> picture.bytes == file.bytes && format_of(
            file.mime_type,
        ) == Some(picture.format),
{
}

/// Law: there is one place for a picture for each file, in the same order.
pub proof fn thumbnails_are_made_one_by_one(files: Seq<PickedFile>, i: int)
    ensures
        thumbnails(files).len() == files.len(),
        0 <= i < files.len() ==> thumbnails(files)[i] == thumbnail(files[i]),
{
}

/// Law: a file is identified by its own name, type and length, and by what its
/// kind is called.
pub proof fn a_file_is_identified_by_itself(file: PickedFile)
    ensures
        identity(file).name == file.file_name,
        identity(file).mime_type == file.mime_type,
        identity(file).size == file.bytes.len(),
        file.kind is Image ==> identity(file).label == "Imagem"@,
        file.kind is Video ==> identity(file).label == "Vídeo"@,
        file.kind is Document ==> identity(file).label == "Documento"@,
{
}

/// Law: the button that sends is enabled just as the caller says, whatever is
/// shown.
pub proof fn the_send_button_follows_the_caller(
    files: Seq<PickedFile>,
    images: Seq<Option<Picture>>,
    can_send: bool,
)
    ensures
        surface(files, images, can_send).can_send == can_send,
{
}

/// Law: the question is put in the singular for just one file.
pub proof fn the_question_counts_the_files(
    files: Seq<PickedFile>,
    images: Seq<Option<Picture>>,
    can_send: bool,
)
    ensures
        files.len() == 1 ==> surface(files, images, can_send).title == "Send this attachment?"@,
        files.len() != 1 ==> surface(files, images, can_send).title == "Send these attachments?"@,
{
}

/// Law: each file that has a place for a picture is shown at its own place:
/// its picture with its lines where there is one, and a card with its lines
/// where there is none. Nothing else is shown.
pub proof fn the_surface_pairs_files_with_pictures(
    files: Seq<PickedFile>,
    images: Seq<Option<Picture>>,
    can_send: bool,
    i: int,
)
    ensures
        surface(files, images, can_send).items.len() <= files.len(),
        surface(files, images, can_send).items.len() <= images.len(),
        surface(files, images, can_send).items.len() == files.len() || surface(
            files,
            images,
            can_send,
        ).items.len() == images.len(),
        0 <= i < surface(files, images, can_send).items.len() ==> match surface(
            files,
            images,
            can_send,
        ).items[i] {
            Item::Picture { image, lines } => images[i] == Some(image) && lines == identity(
                files[i],
            ),
            Item::Card { lines } => images[i] is None && lines == identity(files[i]),
        },
{
}

/// Law: one file is shown with its picture just where it has one, and under
/// its own lines.
pub proof fn an_item_shows_its_picture(file: PickedFile, image: Option<Picture>)
    ensures
        image matches Some(picture) ==> item(file, image) == (Item::Picture {
            image: picture,
            lines: identity(file),
        }),
        image is None ==> item(file, image) == (Item::Card { lines: identity(file) }),
{
}

/// Law: pictures are modelled one by one, by their own format and bytes.
pub proof fn pictures_are_modelled_one_by_one(images: Seq<Option<Arc<PreviewImage>>>, i: int)
    ensures
        picture_models(images).len() == images.len(),
        0 <= i < images.len() ==> match images[i] {
            Some(image) => picture_models(images)[i] == Some(
                Picture { format: image.format, bytes: image.bytes@ },
            ),
            None => picture_models(images)[i] is None,
        },
{
}

/// Law: the model of a file's lines holds every one of them.
pub proof fn the_model_of_lines_is_whole(lines: FileLines)
    ensures
        lines@.label == lines.label@,
        lines@.name == lines.name@,
        lines@.mime_type == lines.mime_type@,
        lines@.size == lines.size,
{
}

/// Law: the model of a surface holds its title, its items in order and its
/// button.
pub proof fn the_model_of_a_surface_is_whole(shown: PasteSurface, i: int)
    ensures
        shown@.title == shown.title@,
        shown@.can_send == shown.can_send,
        shown@.items.len() == shown.items@.len(),
        0 <= i < shown.items@.len() ==> match shown.items@[i] {
            PreviewItem::Picture { image, lines } => shown@.items[i] == (Item::Picture {
                image: Picture { format: image.format, bytes: image.bytes@ },
                lines: lines@,
            }),
            PreviewItem::Card { lines } => shown@.items[i] == (Item::Card { lines: lines@ }),
        },
{
}

} // verus!
