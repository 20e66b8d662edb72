//! A picture's dimensions, from its header alone.

use vstd::prelude::*;

verus! {

/// Whether reading the header of these bytes with the `image` crate can give
/// these dimensions, a width and a height in pixels or nothing, under some
/// choice of the hooks that a process may have registered with that crate.
pub uninterp spec fn header_reads(bytes: Seq<u8>, dimensions: Option<(u32, u32)>) -> bool;

/// Calls `image::ImageReader::new` on the bytes, then
/// `image::ImageReader::with_guessed_format` and
/// `image::ImageReader::into_dimensions`.
///
/// Trusted: the outcome is one that [`header_reads`] allows for these bytes.
/// Detection and decoding hooks are registered for a whole process and come
/// before the crate's own formats, so the bytes alone do not settle it: which
/// of the allowed outcomes comes back, and what a hook does, is left unsaid.
#[verifier::external_body]
fn read_header(bytes: &[u8]) -> (dimensions: Option<(u32, u32)>)
    ensures
        header_reads(bytes@, dimensions),
{
    match image::ImageReader::new(std::io::Cursor::new(bytes)).with_guessed_format() {
        Ok(reader) => match reader.into_dimensions() {
            Ok(dimensions) => Some(dimensions),
            Err(_) => None,
        },
        Err(_) => None,
    }
}

/// A picture's width and height, each where it is known.
pub type Sides = (Option<u32>, Option<u32>);

/// The sides that a header's dimensions give: both of them or neither.
pub open spec fn sides(dimensions: Option<(u32, u32)>) -> Sides {
    match dimensions {
        Some((width, height)) => (Some(width), Some(height)),
        None => (None, None),
    }
}

/// Width and height, each where it is known.
pub fn sides_of(dimensions: Option<(u32, u32)>) -> (size: Sides)
    ensures
        size == sides(dimensions),
{
    match dimensions {
        Some((width, height)) => (Some(width), Some(height)),
        None => (None, None),
    }
}

/// Whether these are sides that the header of these bytes can give.
pub open spec fn sized(bytes: Seq<u8>, size: Sides) -> bool {
    exists|dimensions: Option<(u32, u32)>| #[trigger]
        header_reads(bytes, dimensions) && size == sides(dimensions)
}

/// A picture's width and height, from its header alone.
///
/// A bubble lays the picture out before it is decoded, and without these it
/// lays it out as a square. Neither is known for anything that this build
/// cannot read.
pub fn image_size(bytes: &[u8]) -> (size: Sides)
    ensures
        sized(bytes@, size),
{
    sides_of(read_header(bytes))
}

/// Law: sides are the dimensions themselves, the width first, and unknown just
/// where there are none.
pub proof fn sides_are_the_dimensions(dimensions: Option<(u32, u32)>)
    ensures
        dimensions matches Some(pair) ==> sides(dimensions).0 == Some(pair.0) && sides(
            dimensions,
        ).1 == Some(pair.1),
        dimensions is None ==> sides(dimensions).0 is None && sides(dimensions).1 is None,
{
}

/// Law: sides that a header can give are those of dimensions that reading it
/// can give, and every such dimensions count.
pub proof fn sides_come_from_the_header(bytes: Seq<u8>, size: Sides)
    ensures
        sized(bytes, size) <==> ({
            ||| size.0 is Some && size.1 is Some && header_reads(
                bytes,
                Some((size.0->0, size.1->0)),
            )
            ||| size.0 is None && size.1 is None && header_reads(bytes, None)
        }),
{
    if size.0 is Some && size.1 is Some && header_reads(bytes, Some((size.0->0, size.1->0))) {
        assert(size == sides(Some((size.0->0, size.1->0))));
    }
    if size.0 is None && size.1 is None && header_reads(bytes, None) {
        assert(size == sides(None));
    }
}

} // verus!
