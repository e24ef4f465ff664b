//! One image, one page: what is embedded, and where it is placed.

use vstd::prelude::*;
use crate::container::Container;
use crate::container::encoded_segment;
use crate::container::encoded_segments;
use crate::container::exif_block;
use crate::container::is_exif_segment;
use crate::container::lemma_exif_segment_is_not_written;
use crate::container::lemma_kept_segment_is_written;
use crate::container::lemma_strip_removes_exif_only;
use crate::container::written_segments;
use crate::container::parsed_segments;
use crate::container::without_exif;
use crate::container::writable;
use crate::errors::Cause;
use crate::errors::CauseKind;
use crate::errors::FaultKind;
use crate::errors::SectionsFault;
use crate::header::ColorFormat;
use crate::header::ImageHeader;
use crate::header::decoded_header;
use crate::header::header_of;
use crate::header::header_outcome;
use crate::ori::Geometry;
use crate::ori::Orientation;
use crate::ori::as_stored;
use crate::resolver::resolve_orientation;
use crate::resolver::resolved_orientation;

verus! {

/// The bits of a colour component in every image that is embedded.
pub const BITS_PER_COMPONENT: u8 = 8;

/// A page and the image on it. The page is as large as the image is when
/// shown, `geometry.display_width` by `geometry.display_height` pixels; the
/// image is embedded with its stored size and placed as `geometry` says.
#[derive(Debug, PartialEq, Eq)]
pub struct Page {
    pub geometry: Geometry,
    /// Stored width of the image in pixels, before any rotation.
    pub image_width: usize,
    /// Stored height of the image in pixels, before any rotation.
    pub image_height: usize,
    pub color: ColorFormat,
    /// Bits of each colour component of a pixel.
    pub bits_per_component: u8,
    /// The compressed image, a JPEG stream that is embedded as it is.
    pub payload: Vec<u8>,
}

/// A page with its payload as a sequence of bytes.
pub struct PageView {
    pub geometry: Geometry,
    pub image_width: usize,
    pub image_height: usize,
    pub color: ColorFormat,
    pub bits_per_component: u8,
    pub payload: Seq<u8>,
}

impl View for Page {
    type V = PageView;

    open spec fn view(&self) -> PageView {
        PageView {
            geometry: self.geometry,
            image_width: self.image_width,
            image_height: self.image_height,
            color: self.color,
            bits_per_component: self.bits_per_component,
            payload: self.payload@,
        }
    }
}

/// The page of an image with the given header, orientation code and
/// payload.
pub open spec fn page_for(header: ImageHeader, code: u32, payload: Seq<u8>) -> PageView {
    PageView {
        geometry: Orientation {
            value: code,
            width: header.width as usize,
            height: header.height as usize,
        }.spec_geometry(),
        image_width: header.width as usize,
        image_height: header.height as usize,
        color: header.color,
        bits_per_component: BITS_PER_COMPONENT,
        payload,
    }
}

/// Lays an image out on its page: the stored size and the colour format
/// come from the header, the geometry from the orientation code, every
/// component has eight bits, and the payload is embedded untouched.
pub fn lay_out(header: ImageHeader, code: u32, payload: Vec<u8>) -> (page: Page)
    ensures
        page@ == page_for(header, code, payload@),
{
    let ori = Orientation {
        value: code,
        width: header.width as usize,
        height: header.height as usize,
    };
    Page {
        geometry: ori.geometry(),
        image_width: ori.width,
        image_height: ori.height,
        color: header.color,
        bits_per_component: BITS_PER_COMPONENT,
        payload,
    }
}

/// The payload of an image whose container holds `segments`: the image
/// itself, or, where EXIF is stripped, the container written back without
/// its EXIF segments; `None` where that cannot be written.
pub open spec fn payload_for(
    image: Seq<u8>,
    segments: Seq<(u8, Seq<u8>, Seq<u8>)>,
    strip_exif: bool,
) -> Option<Seq<u8>> {
    if !strip_exif {
        Some(image)
    } else if writable(without_exif(segments)) {
        Some(encoded_segments(without_exif(segments)))
    } else {
        None
    }
}

/// The page that an image becomes, or the kind of the cause for which it
/// becomes none. The header is decoded first, then the container is read;
/// the orientation comes from the EXIF block of the container.
pub open spec fn composed_page(image: Seq<u8>, strip_exif: bool) -> Result<PageView, CauseKind> {
    match header_outcome(decoded_header(image)) {
        Err(kind) => Err(kind),
        Ok(header) => match parsed_segments(image) {
            None => Err(CauseKind::ImageSections(FaultKind::Parse)),
            Some(segments) => match payload_for(image, segments, strip_exif) {
                None => Err(CauseKind::ImageSections(FaultKind::Unwritable)),
                Some(payload) => Ok(
                    page_for(header, resolved_orientation(exif_block(segments)), payload),
                ),
            },
        },
    }
}

/// An image without EXIF data is shown as it is stored, whatever its
/// header and its payload are.
pub proof fn lemma_no_exif_shows_as_stored(header: ImageHeader, payload: Seq<u8>)
    ensures
        page_for(header, resolved_orientation(None), payload).geometry == as_stored(
            header.width as usize,
            header.height as usize,
        ),
{
}

/// An image whose header is decoded and whose container is read and holds
/// no EXIF block becomes a page, and is shown on it as it is stored: the
/// page has the width and the height of the header, and the image stands
/// on it without offset, rotation or mirroring. Where EXIF is stripped,
/// this is so for a container that can be written back.
pub proof fn lemma_image_without_exif_shows_as_stored(
    image: Seq<u8>,
    strip_exif: bool,
    header: ImageHeader,
    segments: Seq<(u8, Seq<u8>, Seq<u8>)>,
)
    requires
        decoded_header(image) == Some(Some(header)),
        parsed_segments(image) == Some(segments),
        exif_block(segments) is None,
        strip_exif ==> writable(segments),
    ensures
        composed_page(image, strip_exif) is Ok,
        composed_page(image, strip_exif)->Ok_0.geometry == as_stored(
            header.width as usize,
            header.height as usize,
        ),
        composed_page(image, strip_exif)->Ok_0.image_width == header.width,
        composed_page(image, strip_exif)->Ok_0.image_height == header.height,
{
    lemma_strip_removes_exif_only(segments);
}

/// Where EXIF is kept, the payload of a page is the image itself, byte for
/// byte.
pub proof fn lemma_kept_payload_is_the_image(image: Seq<u8>)
    ensures
        composed_page(image, false) matches Ok(page) ==> page.payload == image,
{
}

/// Where EXIF is stripped, an image that becomes a page becomes the page
/// that it becomes with EXIF kept, but for the payload: the geometry, the
/// stored size and the colour format are the same. The payload is the
/// container written back without its EXIF segments, so it holds no EXIF
/// block, and every other segment is written as the container held it.
pub proof fn lemma_stripping_changes_the_payload_only(image: Seq<u8>)
    requires
        composed_page(image, true) is Ok,
    ensures
        composed_page(image, false) is Ok,
        composed_page(image, true)->Ok_0 == (PageView {
            payload: encoded_segments(without_exif(parsed_segments(image)->Some_0)),
            ..composed_page(image, false)->Ok_0
        }),
        exif_block(without_exif(parsed_segments(image)->Some_0)) is None,
{
    lemma_strip_removes_exif_only(parsed_segments(image)->Some_0);
}

/// The payload of a stripped image, segment by segment. A segment of the
/// container that is no EXIF segment stands in the payload as the
/// container held it, contents and compressed data unchanged, behind what
/// is left of the segments before it and before what is left of those
/// behind it. An EXIF segment leaves no byte in the payload.
pub proof fn lemma_stripped_payload_by_segment(
    image: Seq<u8>,
    front: Seq<(u8, Seq<u8>, Seq<u8>)>,
    segment: (u8, Seq<u8>, Seq<u8>),
    back: Seq<(u8, Seq<u8>, Seq<u8>)>,
)
    requires
        composed_page(image, true) is Ok,
        parsed_segments(image) == Some(front + seq![segment] + back),
    ensures
        !is_exif_segment(segment) ==> composed_page(image, true)->Ok_0.payload
            == encoded_segments(without_exif(front)) + encoded_segment(segment)
            + written_segments(without_exif(back)),
        is_exif_segment(segment) ==> composed_page(image, true)->Ok_0.payload
            == encoded_segments(without_exif(front)) + written_segments(without_exif(back)),
{
    if is_exif_segment(segment) {
        lemma_exif_segment_is_not_written(front, segment, back);
    } else {
        lemma_kept_segment_is_written(front, segment, back);
    }
}

/// Composes the page of one image. It succeeds on exactly the images for
/// which `composed_page` gives a page, with that page, and fails with a
/// cause of the kind that `composed_page` gives.
pub fn compose_page(image: Vec<u8>, strip_exif: bool) -> (composed: Result<Page, Cause>)
    ensures
        match composed {
            Ok(page) => composed_page(image@, strip_exif) == Ok::<PageView, CauseKind>(page@),
            Err(cause) => composed_page(image@, strip_exif) == Err::<PageView, CauseKind>(
                cause.kind(),
            ),
        },
{
    let header = match header_of(&image) {
        Ok(header) => header,
        Err(cause) => {
            return Err(cause);
        },
    };
    let mut container = match Container::parse(&image) {
        Ok(container) => container,
        Err(cause) => {
            return Err(cause);
        },
    };
    let code = resolve_orientation(container.exif());
    let payload = if strip_exif {
        container.strip_exif();
        if !container.is_writable() {
            return Err(Cause::ImageSections(SectionsFault::Unwritable));
        }
        container.into_bytes()
    } else {
        image
    };
    Ok(lay_out(header, code, payload))
}

} // verus!
