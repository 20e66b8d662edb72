use attachments::dimensions::{image_size, sides_of};

#[test]
fn sides_are_known_together_or_not_at_all() {
    assert_eq!(sides_of(Some((640, 480))), (Some(640), Some(480)));
    assert_eq!(sides_of(None), (None, None));
}

#[test]
fn a_png_header_gives_its_sides() {
    let png: [u8; 73] = [
        137, 80, 78, 71, 13, 10, 26, 10, 0, 0, 0, 13, 73, 72, 68, 82, 0, 0, 0, 3, 0, 0, 0, 2, 8, 0,
        0, 0, 0, 184, 31, 57, 198, 0, 0, 0, 16, 73, 68, 65, 84, 120, 156, 99, 96, 100, 98, 102, 96,
        97, 101, 3, 0, 0, 70, 0, 22, 119, 245, 200, 127, 0, 0, 0, 0, 73, 69, 78, 68, 174, 66, 96,
        130,
    ];
    assert_eq!(image_size(&png), (Some(3), Some(2)));
    assert_eq!(image_size(&png[..20]), (None, None));
}

#[test]
fn a_gif_header_gives_its_sides() {
    let gif = b"GIF89a\x05\x00\x07\x00\x80\x00\x00\x00\x00\x00\xff\xff\xff\
        \x2c\x00\x00\x00\x00\x05\x00\x07\x00\x00\x02\x02\x84\x51\x00\x3b";
    assert_eq!(image_size(gif), (Some(5), Some(7)));
    assert_eq!(image_size(&gif[..12]), (None, None));
}

#[test]
fn what_cannot_be_read_has_no_sides() {
    assert_eq!(image_size(&[]), (None, None));
    assert_eq!(image_size(&[0; 64]), (None, None));
    assert_eq!(image_size(b"\x00\x00\x00\x18ftypheic\x00\x00\x00\x00"), (None, None));
    assert_eq!(image_size(b"BM\x3a\x00\x00\x00\x00\x00\x00\x00\x36\x00"), (None, None));
}
