use jpeg_to_pdf::container::shapes_writable;
use jpeg_to_pdf::container::Container;
use jpeg_to_pdf::header::header_from;
use jpeg_to_pdf::header::header_of;
use jpeg_to_pdf::page::compose_page;
use jpeg_to_pdf::page::lay_out;
use jpeg_to_pdf::resolver::orientation_code;
use jpeg_to_pdf::resolver::resolve_orientation;
use jpeg_to_pdf::resolver::TagLookup;
use jpeg_to_pdf::resolver::DEFAULT_ORIENTATION;
use jpeg_to_pdf::Cause;
use jpeg_to_pdf::CauseKind;
use jpeg_to_pdf::ColorFormat;
use jpeg_to_pdf::FaultKind;
use jpeg_to_pdf::Geometry;
use jpeg_to_pdf::ImageHeader;
use jpeg_to_pdf::SectionsFault;

const ORIENTATION_TAG: u16 = 0x0112;
const TYPE_ASCII: u16 = 2;
const TYPE_SHORT: u16 = 3;

/// A big-endian TIFF block with one entry in its only IFD.
fn tiff_with_entry(tag: u16, kind: u16, value: [u8; 4]) -> Vec<u8> {
    let mut block = vec![0x4D, 0x4D, 0x00, 0x2A, 0, 0, 0, 8, 0, 1];
    block.extend_from_slice(&tag.to_be_bytes());
    block.extend_from_slice(&kind.to_be_bytes());
    block.extend_from_slice(&1u32.to_be_bytes());
    block.extend_from_slice(&value);
    block.extend_from_slice(&[0, 0, 0, 0]);
    block
}

fn tiff_with_orientation(code: u16) -> Vec<u8> {
    let code = code.to_be_bytes();
    tiff_with_entry(ORIENTATION_TAG, TYPE_SHORT, [code[0], code[1], 0, 0])
}

fn segment(marker: u8, contents: &[u8]) -> Vec<u8> {
    let length = (contents.len() + 2) as u16;
    let mut bytes = vec![0xFF, marker];
    bytes.extend_from_slice(&length.to_be_bytes());
    bytes.extend_from_slice(contents);
    bytes
}

fn exif_segment(block: &[u8]) -> Vec<u8> {
    let mut contents = b"Exif\0\0".to_vec();
    contents.extend_from_slice(block);
    segment(0xE1, &contents)
}

fn frame(width: u16, height: u16, components: u8) -> Vec<u8> {
    let mut contents = vec![8];
    contents.extend_from_slice(&height.to_be_bytes());
    contents.extend_from_slice(&width.to_be_bytes());
    contents.push(components);
    for id in 1..=components {
        contents.extend_from_slice(&[id, 0x11, 0]);
    }
    segment(0xC0, &contents)
}

/// A scan header for one component, two bytes of image data and the end
/// of the image.
fn scan() -> Vec<u8> {
    let mut bytes = segment(0xDA, &[1, 1, 0, 0, 63, 0]);
    bytes.extend_from_slice(&[0x12, 0x34, 0xFF, 0xD9]);
    bytes
}

fn jpeg(exif: Option<&[u8]>, width: u16, height: u16, components: u8) -> Vec<u8> {
    let mut bytes = vec![0xFF, 0xD8];
    if let Some(block) = exif {
        bytes.extend_from_slice(&exif_segment(block));
    }
    bytes.extend_from_slice(&frame(width, height, components));
    bytes.extend_from_slice(&scan());
    bytes
}

fn oriented_jpeg(code: u16, width: u16, height: u16) -> Vec<u8> {
    jpeg(Some(&tiff_with_orientation(code)), width, height, 3)
}

const AS_STORED: Geometry = Geometry {
    display_width: 4032,
    display_height: 3024,
    translate_x: None,
    translate_y: None,
    rotate_cw: None,
    scale_x: None,
};

#[test]
fn header_gives_size_and_color() {
    assert_eq!(
        header_of(&jpeg(None, 640, 480, 1)).unwrap(),
        ImageHeader { width: 640, height: 480, color: ColorFormat::Grayscale }
    );
    assert_eq!(
        header_of(&jpeg(None, 1, 65535, 3)).unwrap(),
        ImageHeader { width: 1, height: 65535, color: ColorFormat::Rgb }
    );
    assert_eq!(
        header_of(&jpeg(None, 4032, 3024, 4)).unwrap(),
        ImageHeader { width: 4032, height: 3024, color: ColorFormat::Cmyk }
    );
}

#[test]
fn header_from_judges_each_outcome() {
    let found = ImageHeader { width: 2, height: 3, color: ColorFormat::Cmyk };
    assert_eq!(header_from(Ok(Some(found))).unwrap(), found);
    let missing = header_from(Ok(None)).unwrap_err();
    assert!(matches!(missing, Cause::UnexpectedImageInfo));
    assert_eq!(missing.kind(), CauseKind::UnexpectedImageInfo);
    let failed = header_from(Err(jpeg_decoder::Error::Format(String::from("cut")))).unwrap_err();
    assert!(matches!(failed, Cause::ImageInfo(jpeg_decoder::Error::Format(text)) if text == "cut"));
}

#[test]
fn header_of_garbage_is_an_image_info_cause() {
    let cause = header_of(&vec![1, 2, 3]).unwrap_err();
    assert_eq!(cause.kind(), CauseKind::ImageInfo);
    assert!(matches!(cause, Cause::ImageInfo(_)));
    let cause = header_of(&Vec::new()).unwrap_err();
    assert_eq!(cause.kind(), CauseKind::ImageInfo);
}

#[test]
fn orientation_code_falls_back_to_the_default() {
    assert_eq!(DEFAULT_ORIENTATION, 1);
    assert_eq!(orientation_code(None), 1);
    assert_eq!(orientation_code(Some(TagLookup::Unparseable)), 1);
    assert_eq!(orientation_code(Some(TagLookup::Absent)), 1);
    assert_eq!(orientation_code(Some(TagLookup::NotUnsigned)), 1);
}

#[test]
fn orientation_code_hands_the_number_on() {
    for code in 0..=9 {
        assert_eq!(orientation_code(Some(TagLookup::Unsigned(code))), code);
    }
    assert_eq!(orientation_code(Some(TagLookup::Unsigned(u32::MAX))), u32::MAX);
}

#[test]
fn resolve_orientation_reads_the_tag() {
    assert_eq!(resolve_orientation(None), 1);
    for code in 1..=8 {
        assert_eq!(resolve_orientation(Some(tiff_with_orientation(code))), u32::from(code));
    }
    assert_eq!(resolve_orientation(Some(tiff_with_orientation(0))), 0);
    assert_eq!(resolve_orientation(Some(tiff_with_orientation(37))), 37);
}

#[test]
fn resolve_orientation_reads_a_little_endian_long() {
    let block = vec![
        0x49, 0x49, 0x2A, 0x00, 8, 0, 0, 0, 1, 0, 0x12, 0x01, 4, 0, 1, 0, 0, 0, 8, 0, 0, 0, 0, 0,
        0, 0,
    ];
    assert_eq!(resolve_orientation(Some(block)), 8);
}

#[test]
fn resolve_orientation_of_an_unparseable_block_is_the_default() {
    assert_eq!(resolve_orientation(Some(Vec::new())), 1);
    assert_eq!(resolve_orientation(Some(vec![6; 40])), 1);
    let mut cut = tiff_with_orientation(6);
    cut.truncate(20);
    assert_eq!(resolve_orientation(Some(cut)), 1);
}

#[test]
fn resolve_orientation_without_the_tag_is_the_default() {
    let other_tag = tiff_with_entry(0x0100, TYPE_SHORT, [0, 6, 0, 0]);
    assert_eq!(resolve_orientation(Some(other_tag)), 1);
}

#[test]
fn resolve_orientation_of_a_text_tag_is_the_default() {
    let text = tiff_with_entry(ORIENTATION_TAG, TYPE_ASCII, [b'6', 0, 0, 0]);
    assert_eq!(resolve_orientation(Some(text)), 1);
}

#[test]
fn container_reports_its_exif_block() {
    let block = tiff_with_orientation(6);
    let with = Container::parse(&jpeg(Some(&block), 8, 8, 3)).unwrap();
    assert_eq!(with.exif(), Some(block));
    let without = Container::parse(&jpeg(None, 8, 8, 3)).unwrap();
    assert_eq!(without.exif(), None);
}

#[test]
fn container_reports_the_first_of_two_exif_blocks() {
    let mut bytes = vec![0xFF, 0xD8];
    bytes.extend_from_slice(&exif_segment(&[1, 2, 3]));
    bytes.extend_from_slice(&exif_segment(&[4, 5]));
    bytes.extend_from_slice(&frame(8, 8, 1));
    bytes.extend_from_slice(&scan());
    let mut container = Container::parse(&bytes).unwrap();
    assert_eq!(container.exif(), Some(vec![1, 2, 3]));
    container.strip_exif();
    assert_eq!(container.exif(), None);
    assert_eq!(container.into_bytes(), jpeg(None, 8, 8, 1));
}

#[test]
fn container_keeps_an_app1_segment_that_is_no_exif() {
    let mut bytes = vec![0xFF, 0xD8];
    bytes.extend_from_slice(&segment(0xE1, b"http://ns.adobe.com/xap/1.0/\0"));
    bytes.extend_from_slice(&segment(0xE1, b"Exif"));
    bytes.extend_from_slice(&segment(0xE0, b"Exif\0\0II"));
    bytes.extend_from_slice(&frame(8, 8, 1));
    bytes.extend_from_slice(&scan());
    let mut container = Container::parse(&bytes).unwrap();
    assert_eq!(container.exif(), None);
    container.strip_exif();
    assert!(container.is_writable());
    assert_eq!(container.into_bytes(), bytes);
}

#[test]
fn container_with_an_empty_exif_block() {
    let container = Container::parse(&jpeg(Some(&[]), 8, 8, 1)).unwrap();
    assert_eq!(container.exif(), Some(Vec::new()));
}

#[test]
fn container_of_a_wrong_signature_fails() {
    let cause = Container::parse(&vec![0x89, b'P', b'N', b'G']).unwrap_err();
    assert_eq!(cause.kind(), CauseKind::ImageSections(FaultKind::Parse));
    assert!(matches!(
        cause,
        Cause::ImageSections(SectionsFault::Parse(img_parts::Error::WrongSignature))
    ));
}

#[test]
fn container_that_ends_early_fails() {
    let mut bytes = vec![0xFF, 0xD8];
    bytes.extend_from_slice(&frame(8, 8, 1));
    let cause = Container::parse(&bytes).unwrap_err();
    assert!(matches!(
        cause,
        Cause::ImageSections(SectionsFault::Parse(img_parts::Error::Truncated))
    ));
}

#[test]
fn container_with_an_empty_scan_header_is_not_writable() {
    let mut bytes = vec![0xFF, 0xD8];
    bytes.extend_from_slice(&frame(8, 8, 1));
    bytes.extend_from_slice(&segment(0xDA, &[]));
    bytes.extend_from_slice(&[0x12, 0x34, 0xFF, 0xD9]);
    let container = Container::parse(&bytes).unwrap();
    assert!(!container.is_writable());
    let fine = Container::parse(&jpeg(None, 8, 8, 1)).unwrap();
    assert!(fine.is_writable());
}

#[test]
fn container_with_the_longest_segment_is_writable() {
    let mut bytes = vec![0xFF, 0xD8];
    bytes.extend_from_slice(&segment(0xFE, &vec![b'c'; 65533]));
    bytes.extend_from_slice(&frame(8, 8, 1));
    bytes.extend_from_slice(&scan());
    let container = Container::parse(&bytes).unwrap();
    assert!(container.is_writable());
    assert_eq!(container.into_bytes(), bytes);
}

#[test]
fn container_writes_a_marker_without_length_with_a_zero_length() {
    let mut bytes = vec![0xFF, 0xD8, 0xFF, 0x01];
    bytes.extend_from_slice(&frame(8, 8, 1));
    bytes.extend_from_slice(&scan());
    let container = Container::parse(&bytes).unwrap();
    assert!(container.is_writable());
    let mut written = vec![0xFF, 0xD8, 0xFF, 0x01, 0, 0];
    written.extend_from_slice(&frame(8, 8, 1));
    written.extend_from_slice(&scan());
    assert_eq!(container.into_bytes(), written);
}

#[test]
fn container_writes_each_segment_with_its_length() {
    let mut bytes = vec![0xFF, 0xD8];
    bytes.extend_from_slice(&segment(0xFE, &vec![b'c'; 300]));
    bytes.extend_from_slice(&[0xFF, 0xC0, 0, 11, 8, 0, 8, 0, 8, 1, 1, 0x11, 0]);
    bytes.extend_from_slice(&[0xFF, 0xDA, 0, 8, 1, 1, 0, 0, 63, 0, 0x12, 0x34, 0xFF, 0xD9]);
    let written = Container::parse(&bytes).unwrap().into_bytes();
    assert_eq!(&written[..6], &[0xFF, 0xD8, 0xFF, 0xFE, 0x01, 0x2E]);
    assert_eq!(written, bytes);
}

#[test]
fn shapes_tell_what_can_be_written() {
    assert!(shapes_writable(&Vec::new()));
    assert!(shapes_writable(&vec![(0, false), (1, true), (65533, false), (65533, true)]));
    assert!(!shapes_writable(&vec![(0, true)]));
    assert!(!shapes_writable(&vec![(65534, false)]));
    assert!(!shapes_writable(&vec![(9, false), (9, true), (0, true), (9, false)]));
    assert!(!shapes_writable(&vec![(9, false), (usize::MAX, true)]));
}

#[test]
fn lay_out_places_a_quarter_turn() {
    let header = ImageHeader { width: 4032, height: 3024, color: ColorFormat::Rgb };
    let page = lay_out(header, 6, vec![9, 8, 7]);
    assert_eq!(
        page.geometry,
        Geometry {
            display_width: 3024,
            display_height: 4032,
            translate_x: None,
            translate_y: Some(4032),
            rotate_cw: Some(270),
            scale_x: None,
        }
    );
    assert_eq!(page.image_width, 4032);
    assert_eq!(page.image_height, 3024);
    assert_eq!(page.color, ColorFormat::Rgb);
    assert_eq!(page.bits_per_component, 8);
    assert_eq!(page.payload, vec![9, 8, 7]);
}

#[test]
fn lay_out_of_an_unknown_code_is_as_stored() {
    let header = ImageHeader { width: 4032, height: 3024, color: ColorFormat::Cmyk };
    for code in [0, 1, 9, 10, 255, u32::MAX] {
        let page = lay_out(header, code, Vec::new());
        assert_eq!(page.geometry, AS_STORED);
        assert_eq!((page.image_width, page.image_height), (4032, 3024));
    }
}

#[test]
fn page_of_an_image_without_exif_is_as_stored() {
    let image = jpeg(None, 4032, 3024, 3);
    let page = compose_page(image.clone(), false).unwrap();
    assert_eq!(page.geometry, AS_STORED);
    assert_eq!(page.color, ColorFormat::Rgb);
    assert_eq!(page.payload, image);
}

#[test]
fn page_follows_the_orientation_tag() {
    let page = compose_page(oriented_jpeg(6, 4032, 3024), false).unwrap();
    assert_eq!(page.geometry.display_width, 3024);
    assert_eq!(page.geometry.display_height, 4032);
    assert_eq!(page.geometry.translate_x, None);
    assert_eq!(page.geometry.translate_y, Some(4032));
    assert_eq!(page.geometry.rotate_cw, Some(270));
    assert_eq!(page.geometry.scale_x, None);
    assert_eq!((page.image_width, page.image_height), (4032, 3024));

    let page = compose_page(oriented_jpeg(3, 4032, 3024), false).unwrap();
    assert_eq!(page.geometry.display_width, 4032);
    assert_eq!(page.geometry.display_height, 3024);
    assert_eq!(page.geometry.translate_x, Some(4032));
    assert_eq!(page.geometry.translate_y, Some(3024));
    assert_eq!(page.geometry.rotate_cw, Some(180));
    assert_eq!(page.geometry.scale_x, None);
}

#[test]
fn page_of_an_out_of_range_code_is_as_stored() {
    for code in [0, 9, 1000] {
        let page = compose_page(oriented_jpeg(code, 4032, 3024), false).unwrap();
        assert_eq!(page.geometry, AS_STORED);
    }
}

#[test]
fn kept_exif_leaves_the_image_untouched() {
    let image = oriented_jpeg(5, 300, 200);
    let page = compose_page(image.clone(), false).unwrap();
    assert_eq!(page.payload, image);
}

#[test]
fn stripped_exif_leaves_the_rest_untouched() {
    let image = oriented_jpeg(5, 300, 200);
    let kept = compose_page(image.clone(), false).unwrap();
    let stripped = compose_page(image, true).unwrap();
    assert_eq!(stripped.payload, jpeg(None, 300, 200, 3));
    assert_eq!(Container::parse(&stripped.payload).unwrap().exif(), None);
    assert_eq!(stripped.geometry, kept.geometry);
    assert_eq!(stripped.geometry.rotate_cw, Some(90));
    assert_eq!(stripped.geometry.scale_x, Some(-1));
    assert_eq!((stripped.image_width, stripped.image_height), (300, 200));
    assert_eq!(stripped.color, kept.color);
    let scan = scan();
    assert!(stripped.payload.ends_with(&scan));
    assert!(kept.payload.ends_with(&scan));
}

#[test]
fn stripping_an_image_without_exif_changes_nothing() {
    let image = jpeg(None, 300, 200, 1);
    let stripped = compose_page(image.clone(), true).unwrap();
    assert_eq!(stripped.payload, image);
}

#[test]
fn page_of_a_cut_header_is_an_image_info_cause() {
    let mut image = oriented_jpeg(6, 300, 200);
    image.truncate(image.len() - scan().len() - 5);
    let cause = compose_page(image, false).unwrap_err();
    assert_eq!(cause.kind(), CauseKind::ImageInfo);
}

#[test]
fn page_of_a_cut_container_is_an_image_sections_cause() {
    let mut image = oriented_jpeg(6, 300, 200);
    image.truncate(image.len() - scan().len());
    assert!(header_of(&image).is_ok());
    let cause = compose_page(image, false).unwrap_err();
    assert_eq!(cause.kind(), CauseKind::ImageSections(FaultKind::Parse));
}

#[test]
fn page_of_an_unwritable_container() {
    let mut image = vec![0xFF, 0xD8];
    image.extend_from_slice(&exif_segment(&tiff_with_orientation(8)));
    image.extend_from_slice(&frame(300, 200, 1));
    image.extend_from_slice(&segment(0xDA, &[]));
    image.extend_from_slice(&[0x12, 0x34, 0xFF, 0xD9]);

    let kept = compose_page(image.clone(), false).unwrap();
    assert_eq!(kept.payload, image);
    assert_eq!(kept.geometry.rotate_cw, Some(90));

    let cause = compose_page(image, true).unwrap_err();
    assert_eq!(cause.kind(), CauseKind::ImageSections(FaultKind::Unwritable));
    assert!(matches!(cause, Cause::ImageSections(SectionsFault::Unwritable)));
}

#[test]
fn composing_twice_gives_the_same_page() {
    for strip_exif in [false, true] {
        let first = compose_page(oriented_jpeg(7, 31, 17), strip_exif).unwrap();
        let second = compose_page(oriented_jpeg(7, 31, 17), strip_exif).unwrap();
        assert_eq!(first, second);
    }
}
