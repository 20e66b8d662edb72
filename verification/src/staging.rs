//! Where a profile image is staged before it is attached to a notification.

use std::collections::hash_map::DefaultHasher;
use std::hash::Hasher;

use vstd::arithmetic::power::pow;
use vstd::bytes::*;
use vstd::prelude::*;
use vstd::std_specs::hash::*;
use vstd::string::*;
use vstd::utf8::*;

verus! {

/// The lower-case digit for a value below sixteen.
pub open spec fn hex_digit(value: nat) -> char {
    if value < 10 {
        ('0' as int + value) as char
    } else {
        ('a' as int + value - 10) as char
    }
}

/// The last `width` hexadecimal digits of a number, zeros in front.
pub open spec fn hex(value: nat, width: nat) -> Seq<char>
    decreases width,
{
    if width == 0 {
        Seq::empty()
    } else {
        hex(value / 16, (width - 1) as nat).push(hex_digit(value % 16))
    }
}

/// The digit for a value below sixteen, as text.
fn digit(value: u64) -> (text: &'static str)
    requires
        value < 16,
    ensures
        text@ == seq![hex_digit(value as nat)],
{
    proof {
        reveal_strlit("0");
        reveal_strlit("1");
        reveal_strlit("2");
        reveal_strlit("3");
        reveal_strlit("4");
        reveal_strlit("5");
        reveal_strlit("6");
        reveal_strlit("7");
        reveal_strlit("8");
        reveal_strlit("9");
        reveal_strlit("a");
        reveal_strlit("b");
        reveal_strlit("c");
        reveal_strlit("d");
        reveal_strlit("e");
        reveal_strlit("f");
    }
    match value {
        0 => "0",
        1 => "1",
        2 => "2",
        3 => "3",
        4 => "4",
        5 => "5",
        6 => "6",
        7 => "7",
        8 => "8",
        9 => "9",
        10 => "a",
        11 => "b",
        12 => "c",
        13 => "d",
        14 => "e",
        _ => "f",
    }
}

/// A number's last `width` hexadecimal digits, as text.
fn hex_text(value: u64, width: usize) -> (text: String)
    ensures
        text@ == hex(value as nat, width as nat),
    decreases width,
{
    if width == 0 {
        String::new()
    } else {
        let mut text = hex_text(value / 16, width - 1);
        text.append(digit(value % 16));
        assert(text@ =~= hex(value as nat, width as nat));
        text
    }
}

/// What a digest is fed: the tag's bytes, the byte that no text holds, the
/// length of the image and the image.
pub open spec fn fed(tag: Seq<char>, bytes: Seq<u8>) -> Seq<Seq<u8>> {
    seq![encode_utf8(tag), seq![0xffu8], spec_u64_to_le_bytes(bytes.len() as u64), bytes]
}

/// The digest that stands for a tag and an image together.
pub open spec fn digest(tag: Seq<char>, bytes: Seq<u8>) -> u64 {
    DefaultHasher::spec_finish(fed(tag, bytes))
}

/// The digest that stands for a tag and an image together.
///
/// The hasher is fed what hashing the two values one after the other feeds it
/// on a little-endian machine with words of 64 bits.
pub fn attachment_digest(tag: &str, bytes: &[u8]) -> (value: u64)
    ensures
        value == digest(tag@, bytes@),
{
    let mut hasher = DefaultHasher::new();
    let end: [u8; 1] = [0xff];
    let length = u64_to_le_bytes(bytes.len() as u64);
    hasher.write(tag.as_bytes());
    hasher.write(&end);
    hasher.write(length.as_slice());
    hasher.write(bytes);
    assert(end@ =~= seq![0xffu8]);
    assert(hasher@ =~= fed(tag@, bytes@));
    hasher.finish()
}

/// The directory, under the machine's temporary one, that holds staged images.
pub open spec fn staging_directory() -> Seq<char> {
    "oxidezap-notification-avatars"@
}

/// The name of a staged image without its extension.
pub open spec fn staged_stem(value: u64) -> Seq<char> {
    hex(value as nat, 16)
}

/// The name of a staged image.
pub open spec fn staged_name(value: u64, extension: Seq<char>) -> Seq<char> {
    staged_stem(value) + "."@ + extension
}

/// Where an image is staged.
#[derive(Debug)]
pub struct AttachmentPath {
    /// A directory under the machine's temporary one.
    pub directory: &'static str,
    /// The file's name without its extension, which also identifies the
    /// attachment.
    pub stem: String,
    /// The file's whole name.
    pub file_name: String,
}

/// The mathematical model of an [`AttachmentPath`].
pub struct StagedPath {
    pub directory: Seq<char>,
    pub stem: Seq<char>,
    pub file_name: Seq<char>,
}

impl View for AttachmentPath {
    type V = StagedPath;

    open spec fn view(&self) -> StagedPath {
        StagedPath {
            directory: self.directory@,
            stem: self.stem@,
            file_name: self.file_name@,
        }
    }
}

impl Clone for AttachmentPath {
    fn clone(&self) -> (copy: Self)
        ensures
            copy@ == self@,
    {
        AttachmentPath {
            directory: self.directory,
            stem: self.stem.clone(),
            file_name: self.file_name.clone(),
        }
    }
}

/// Where the image with this digest and extension is staged.
pub open spec fn staged_path(value: u64, extension: Seq<char>) -> StagedPath {
    StagedPath {
        directory: staging_directory(),
        stem: staged_stem(value),
        file_name: staged_name(value, extension),
    }
}

/// Where the image with this digest is staged: sixteen hexadecimal digits and
/// the extension.
pub fn digest_path(value: u64, extension: &str) -> (path: AttachmentPath)
    ensures
        path@ == staged_path(value, extension@),
{
    let stem = hex_text(value, 16);
    let mut file_name = stem.clone();
    file_name.append(".");
    file_name.append(extension);
    AttachmentPath { directory: "oxidezap-notification-avatars", stem, file_name }
}

/// Where a tag's image is staged.
pub fn attachment_path(tag: &str, bytes: &[u8], extension: &str) -> (path: AttachmentPath)
    ensures
        path@ == staged_path(digest(tag@, bytes@), extension@),
{
    digest_path(attachment_digest(tag, bytes), extension)
}

/// A number below sixteen is told by its digit.
proof fn lemma_hex_digit_injective(a: nat, b: nat)
    requires
        a < 16,
        b < 16,
        hex_digit(a) == hex_digit(b),
    ensures
        a == b,
{
}

/// The digits of two numbers that fit in them agree only where the numbers do.
proof fn lemma_hex_injective(a: nat, b: nat, width: nat)
    requires
        a < pow(16, width),
        b < pow(16, width),
        hex(a, width) == hex(b, width),
    ensures
        a == b,
    decreases width,
{
    reveal(pow);
    if width > 0 {
        let rest = (width - 1) as nat;
        let x = hex(a / 16, rest);
        let y = hex(b / 16, rest);
        let c = hex_digit(a % 16);
        let d = hex_digit(b % 16);
        assert(x.push(c).last() == c && y.push(d).last() == d);
        assert(x =~= x.push(c).drop_last());
        assert(y =~= y.push(d).drop_last());
        lemma_hex_digit_injective(a % 16, b % 16);
        lemma_hex_injective(a / 16, b / 16, rest);
    }
}

/// Every run of digits has the width it was asked for.
proof fn lemma_hex_width(value: nat, width: nat)
    ensures
        hex(value, width).len() == width,
    decreases width,
{
    if width > 0 {
        lemma_hex_width(value / 16, (width - 1) as nat);
    }
}

/// Law: images with different digests are staged under different stems and
/// different names, whatever their extensions.
pub proof fn distinct_digests_never_share_a_file(a: u64, b: u64, first: Seq<char>, second: Seq<char>)
    requires
        a != b,
    ensures
        staged_path(a, first).stem != staged_path(b, second).stem,
        staged_path(a, first).file_name != staged_path(b, second).file_name,
{
    assert(pow(16, 16) == 0x1_0000_0000_0000_0000) by {
        reveal_with_fuel(pow, 17);
    }
    lemma_hex_width(a as nat, 16);
    lemma_hex_width(b as nat, 16);
    if staged_stem(a) == staged_stem(b) {
        lemma_hex_injective(a as nat, b as nat, 16);
    }
    let left = staged_name(a, first);
    let right = staged_name(b, second);
    assert(left.subrange(0, 16) =~= staged_stem(a));
    assert(right.subrange(0, 16) =~= staged_stem(b));
}

/// The value of a lower-case hexadecimal digit.
pub open spec fn digit_value(digit: char) -> int {
    if '0' <= digit <= '9' {
        digit as int - '0' as int
    } else {
        digit as int - 'a' as int + 10
    }
}

/// The number that a run of digits spells, the first digit counting most.
pub open spec fn spelled(digits: Seq<char>) -> int
    decreases digits.len(),
{
    if digits.len() == 0 {
        0
    } else {
        16 * spelled(digits.drop_last()) + digit_value(digits.last())
    }
}

/// Digits spell the number they were made from, as far as it fits in them.
proof fn lemma_hex_spells(value: nat, width: nat)
    requires
        value < pow(16, width),
    ensures
        spelled(hex(value, width)) == value,
        forall|i: int|
            0 <= i < hex(value, width).len() ==> {
                let digit = #[trigger] hex(value, width)[i];
                '0' <= digit <= '9' || 'a' <= digit <= 'f'
            },
    decreases width,
{
    reveal(pow);
    if width > 0 {
        let rest = (width - 1) as nat;
        lemma_hex_spells(value / 16, rest);
        let front = hex(value / 16, rest);
        assert(front.push(hex_digit(value % 16)).drop_last() =~= front);
    }
}

/// Law: a staged image's stem is sixteen lower-case hexadecimal digits that
/// spell its digest, its name is the stem, a point and the extension, and it
/// stands in the directory for notification images.
pub proof fn a_staged_name_spells_the_digest(value: u64, extension: Seq<char>)
    ensures
        staged_path(value, extension).directory == "oxidezap-notification-avatars"@,
        staged_path(value, extension).stem.len() == 16,
        spelled(staged_path(value, extension).stem) == value,
        forall|i: int|
            0 <= i < 16 ==> {
                let digit = #[trigger] staged_path(value, extension).stem[i];
                '0' <= digit <= '9' || 'a' <= digit <= 'f'
            },
        staged_path(value, extension).file_name == staged_path(value, extension).stem + seq!['.']
            + extension,
{
    assert(pow(16, 16) == 0x1_0000_0000_0000_0000) by {
        reveal_with_fuel(pow, 17);
    }
    lemma_hex_width(value as nat, 16);
    lemma_hex_spells(value as nat, 16);
    reveal_strlit(".");
    assert("."@ =~= seq!['.']);
}

/// Law: a digest is fed the whole tag, the byte that ends it, the length of
/// the image and the whole image, in this order and nothing else.
pub proof fn a_digest_covers_the_tag_and_the_image(tag: Seq<char>, bytes: Seq<u8>)
    ensures
        digest(tag, bytes) == DefaultHasher::spec_finish(
            seq![encode_utf8(tag), seq![0xffu8], spec_u64_to_le_bytes(bytes.len() as u64), bytes],
        ),
{
}

/// Law: the model of a path holds every part of it.
pub proof fn the_model_of_a_path_is_whole(path: AttachmentPath)
    ensures
        path@.directory == path.directory@,
        path@.stem == path.stem@,
        path@.file_name == path.file_name@,
{
}

} // verus!
