//! The JPEG container: the segments of an image, its EXIF block, and the
//! image written back without it.

use vstd::prelude::*;
use img_parts::ImageEXIF;
use crate::errors::Cause;
use crate::errors::SectionsFault;

verus! {

/// `img_parts::jpeg::Jpeg`, a parsed container: a list of segments.
#[verifier::external_type_specification]
#[verifier::external_body]
pub struct ExJpeg(img_parts::jpeg::Jpeg);

/// The segments that a parsed container holds, in order. A segment is its
/// marker byte, its contents and the entropy-coded data that follows them.
pub uninterp spec fn segments_of(jpeg: img_parts::jpeg::Jpeg) -> Seq<(u8, Seq<u8>, Seq<u8>)>;

/// What the container parser makes of the bytes of an image: its segments,
/// or `None` where it reports an error.
pub uninterp spec fn parsed_segments(image: Seq<u8>) -> Option<Seq<(u8, Seq<u8>, Seq<u8>)>>;

/// The marker of the application segment that may hold EXIF data.
pub const APP1: u8 = 0xE1;

/// The longest contents that a segment can be written with.
pub const MAX_CONTENTS: usize = 65533;

/// The six bytes that open the contents of an EXIF segment: `Exif`, then
/// two zero bytes.
pub open spec fn exif_prefix() -> Seq<u8> {
    seq![0x45u8, 0x78u8, 0x69u8, 0x66u8, 0u8, 0u8]
}

/// Whether a segment is an EXIF segment: an APP1 segment whose contents
/// open with the EXIF prefix.
pub open spec fn is_exif_segment(segment: (u8, Seq<u8>, Seq<u8>)) -> bool {
    &&& segment.0 == APP1
    &&& segment.1.len() >= 6
    &&& segment.1.subrange(0, 6) == exif_prefix()
}

/// The raw EXIF block of a container: the contents, after the prefix, of
/// its first EXIF segment.
pub open spec fn exif_block(segments: Seq<(u8, Seq<u8>, Seq<u8>)>) -> Option<Seq<u8>>
    decreases segments.len(),
{
    if segments.len() == 0 {
        None
    } else if is_exif_segment(segments.first()) {
        Some(segments.first().1.skip(6))
    } else {
        exif_block(segments.drop_first())
    }
}

/// The segments without the EXIF segments, the others as they were and in
/// their order.
pub open spec fn without_exif(segments: Seq<(u8, Seq<u8>, Seq<u8>)>) -> Seq<
    (u8, Seq<u8>, Seq<u8>),
> {
    segments.filter(|segment: (u8, Seq<u8>, Seq<u8>)| !is_exif_segment(segment))
}

/// Whether the encoder counts the two bytes of the length field into the
/// length that it writes for a segment with this marker: so it is for the
/// frame, table and restart markers 0xC0 to 0xD7, for the scan, the
/// quantization tables and the restart interval, for the application
/// segments and for comments.
pub open spec fn has_length(marker: u8) -> bool {
    ||| 0xC0 <= marker <= 0xD7
    ||| marker == 0xDA
    ||| marker == 0xDB
    ||| marker == 0xDD
    ||| 0xE0 <= marker <= 0xEF
    ||| marker == 0xFE
}

/// The number in the length field of a written segment.
pub open spec fn length_field(segment: (u8, Seq<u8>, Seq<u8>)) -> nat {
    if has_length(segment.0) {
        segment.1.len() + 2
    } else {
        segment.1.len()
    }
}

/// The bytes that the encoder writes for one segment: 0xFF and the marker,
/// the length field with its high byte first, the contents, and the
/// entropy-coded data.
pub open spec fn encoded_segment(segment: (u8, Seq<u8>, Seq<u8>)) -> Seq<u8> {
    seq![0xFFu8, segment.0, (length_field(segment) / 256) as u8, (length_field(segment) % 256) as u8]
        + segment.1 + segment.2
}

/// The bytes of the segments, one after the other.
pub open spec fn written_segments(segments: Seq<(u8, Seq<u8>, Seq<u8>)>) -> Seq<u8>
    decreases segments.len(),
{
    if segments.len() == 0 {
        Seq::empty()
    } else {
        written_segments(segments.drop_last()) + encoded_segment(segments.last())
    }
}

/// The bytes that the encoder writes for a container: the marker of the
/// start of the image, then the segments.
pub open spec fn encoded_segments(segments: Seq<(u8, Seq<u8>, Seq<u8>)>) -> Seq<u8> {
    seq![0xFFu8, 0xD8u8] + written_segments(segments)
}

/// Whether the encoder can write a segment: its contents fit the length
/// field, and entropy-coded data follows contents that are not empty.
pub open spec fn writable_segment(segment: (u8, Seq<u8>, Seq<u8>)) -> bool {
    &&& segment.1.len() <= MAX_CONTENTS
    &&& (segment.1.len() > 0 || segment.2.len() == 0)
}

/// Whether the encoder can write every segment.
pub open spec fn writable(segments: Seq<(u8, Seq<u8>, Seq<u8>)>) -> bool {
    forall|i: int| 0 <= i < segments.len() ==> writable_segment(#[trigger] segments[i])
}

/// A container has an EXIF block exactly where one of its segments is an
/// EXIF segment.
pub proof fn lemma_exif_block_is_some(segments: Seq<(u8, Seq<u8>, Seq<u8>)>)
    ensures
        exif_block(segments) is Some <==> exists|i: int|
            0 <= i < segments.len() && is_exif_segment(#[trigger] segments[i]),
    decreases segments.len(),
{
    if segments.len() > 0 && !is_exif_segment(segments.first()) {
        let rest = segments.drop_first();
        lemma_exif_block_is_some(rest);
        if exif_block(rest) is Some {
            let i = choose|i: int| 0 <= i < rest.len() && is_exif_segment(#[trigger] rest[i]);
            assert(is_exif_segment(segments[i + 1]));
        }
        if exists|i: int| 0 <= i < segments.len() && is_exif_segment(#[trigger] segments[i]) {
            let i = choose|i: int|
                0 <= i < segments.len() && is_exif_segment(#[trigger] segments[i]);
            assert(is_exif_segment(rest[i - 1]));
        }
    } else if segments.len() > 0 {
        assert(is_exif_segment(segments[0]));
    }
}

/// Stripping takes the EXIF out and nothing else: what is left holds no
/// EXIF segment and so no EXIF block, and every other segment, the scan
/// with its compressed data among them, is still there as it was. A
/// container without EXIF segments is left as it is.
pub proof fn lemma_strip_removes_exif_only(segments: Seq<(u8, Seq<u8>, Seq<u8>)>)
    ensures
        exif_block(without_exif(segments)) is None,
        forall|i: int|
            0 <= i < without_exif(segments).len() ==> {
                &&& !is_exif_segment(#[trigger] without_exif(segments)[i])
                &&& segments.contains(without_exif(segments)[i])
            },
        forall|i: int|
            0 <= i < segments.len() && !is_exif_segment(segments[i]) ==> without_exif(
                segments,
            ).contains(#[trigger] segments[i]),
        exif_block(segments) is None ==> without_exif(segments) == segments,
{
    let keep = |segment: (u8, Seq<u8>, Seq<u8>)| !is_exif_segment(segment);
    let left = without_exif(segments);
    assert forall|i: int| 0 <= i < left.len() implies {
        &&& !is_exif_segment(#[trigger] left[i])
        &&& segments.contains(left[i])
    } by {
        segments.lemma_filter_pred(keep, i);
        assert(left.contains(left[i]));
        segments.lemma_filter_contains_rev(keep, left[i]);
    }
    assert forall|i: int|
        0 <= i < segments.len() && !is_exif_segment(segments[i]) implies left.contains(
        #[trigger] segments[i],
    ) by {
        segments.lemma_filter_contains(keep, i);
    }
    lemma_exif_block_is_some(left);
    lemma_exif_block_is_some(segments);
    if exif_block(segments) is None {
        lemma_filter_keeps_all(segments);
    }
}

/// Stripping goes segment by segment: the segments of two lists in a row
/// are stripped as each list is alone, so the order of what is left is the
/// order it had.
pub proof fn lemma_strip_keeps_order(
    front: Seq<(u8, Seq<u8>, Seq<u8>)>,
    back: Seq<(u8, Seq<u8>, Seq<u8>)>,
)
    ensures
        without_exif(front + back) == without_exif(front) + without_exif(back),
{
    Seq::filter_distributes_over_add(
        front,
        back,
        |segment: (u8, Seq<u8>, Seq<u8>)| !is_exif_segment(segment),
    );
}

/// Segments are written one after the other: the bytes of two lists in a
/// row are the bytes of the first, then the bytes of the second.
pub proof fn lemma_written_in_order(
    front: Seq<(u8, Seq<u8>, Seq<u8>)>,
    back: Seq<(u8, Seq<u8>, Seq<u8>)>,
)
    ensures
        written_segments(front + back) == written_segments(front) + written_segments(back),
    decreases back.len(),
{
    if back.len() == 0 {
        assert(front + back =~= front);
        assert(written_segments(front) + written_segments(back) =~= written_segments(front));
    } else {
        lemma_written_in_order(front, back.drop_last());
        assert((front + back).drop_last() =~= front + back.drop_last());
        assert((front + back).last() == back.last());
        assert(written_segments(front + back) =~= written_segments(front) + written_segments(
            back,
        ));
    }
}

/// A segment that is no EXIF segment is written to the stripped image as
/// the container held it, its entropy-coded data last, and between what is
/// left of the segments before it and what is left of those behind it.
pub proof fn lemma_kept_segment_is_written(
    front: Seq<(u8, Seq<u8>, Seq<u8>)>,
    segment: (u8, Seq<u8>, Seq<u8>),
    back: Seq<(u8, Seq<u8>, Seq<u8>)>,
)
    requires
        !is_exif_segment(segment),
    ensures
        encoded_segments(without_exif(front + seq![segment] + back)) == encoded_segments(
            without_exif(front),
        ) + encoded_segment(segment) + written_segments(without_exif(back)),
        encoded_segment(segment).len() >= segment.2.len(),
        encoded_segment(segment).skip(encoded_segment(segment).len() - segment.2.len())
            == segment.2,
{
    let one = seq![segment];
    lemma_strip_keeps_order(front + one, back);
    lemma_strip_keeps_order(front, one);
    assert(forall|i: int| 0 <= i < one.len() ==> !is_exif_segment(#[trigger] one[i]));
    lemma_filter_keeps_all(one);
    lemma_written_in_order(without_exif(front) + one, without_exif(back));
    lemma_written_in_order(without_exif(front), one);
    assert(one.drop_last().len() == 0);
    assert(written_segments(one.drop_last()) =~= Seq::<u8>::empty());
    assert(one.last() == segment);
    assert(written_segments(one) =~= encoded_segment(segment));
    assert(encoded_segments(without_exif(front + one + back)) =~= encoded_segments(
        without_exif(front),
    ) + encoded_segment(segment) + written_segments(without_exif(back)));
    assert(encoded_segment(segment).skip(encoded_segment(segment).len() - segment.2.len())
        =~= segment.2);
}

/// A segment that is an EXIF segment leaves no byte in the stripped image:
/// what is written is what is left of the segments before it, then what is
/// left of those behind it.
pub proof fn lemma_exif_segment_is_not_written(
    front: Seq<(u8, Seq<u8>, Seq<u8>)>,
    segment: (u8, Seq<u8>, Seq<u8>),
    back: Seq<(u8, Seq<u8>, Seq<u8>)>,
)
    requires
        is_exif_segment(segment),
    ensures
        encoded_segments(without_exif(front + seq![segment] + back)) == encoded_segments(
            without_exif(front),
        ) + written_segments(without_exif(back)),
{
    let one = seq![segment];
    lemma_strip_keeps_order(front + one, back);
    lemma_strip_keeps_order(front, one);
    lemma_strip_removes_exif_only(one);
    assert(without_exif(one).len() == 0) by {
        if without_exif(one).len() > 0 {
            let x = without_exif(one)[0];
            assert(one.contains(x));
            assert(!is_exif_segment(x));
        }
    }
    assert(without_exif(front) + without_exif(one) =~= without_exif(front));
    lemma_written_in_order(without_exif(front), without_exif(back));
    assert(encoded_segments(without_exif(front + one + back)) =~= encoded_segments(
        without_exif(front),
    ) + written_segments(without_exif(back)));
}

proof fn lemma_filter_keeps_all(segments: Seq<(u8, Seq<u8>, Seq<u8>)>)
    requires
        forall|i: int| 0 <= i < segments.len() ==> !is_exif_segment(#[trigger] segments[i]),
    ensures
        without_exif(segments) == segments,
    decreases segments.len(),
{
    reveal(Seq::filter);
    if segments.len() > 0 {
        lemma_filter_keeps_all(segments.drop_last());
        assert(!is_exif_segment(segments[segments.len() - 1]));
        assert(segments.drop_last().push(segments.last()) =~= segments);
    }
}

/// `img_parts::jpeg::Jpeg::from_bytes` on a copy of the bytes: the
/// segments of the result are those of `parsed_segments`, and an error
/// comes where that is `None`.
#[verifier::external_body]
fn parse_jpeg(image: &Vec<u8>) -> (parsed: Result<img_parts::jpeg::Jpeg, img_parts::Error>)
    ensures
        match parsed {
            Ok(jpeg) => parsed_segments(image@) == Some(segments_of(jpeg)),
            Err(_) => parsed_segments(image@) is None,
        },
{
    img_parts::jpeg::Jpeg::from_bytes(img_parts::Bytes::copy_from_slice(image.as_slice()))
}

/// `img_parts::ImageEXIF::exif` of a container: the contents after the
/// prefix of the first EXIF segment, or `None` where there is none.
#[verifier::external_body]
fn jpeg_exif(jpeg: &img_parts::jpeg::Jpeg) -> (block: Option<Vec<u8>>)
    ensures
        match block {
            Some(bytes) => exif_block(segments_of(*jpeg)) == Some(bytes@),
            None => exif_block(segments_of(*jpeg)) is None,
        },
{
    jpeg.exif().map(|bytes| bytes.to_vec())
}

/// `img_parts::ImageEXIF::set_exif` with `None`: the EXIF segments leave,
/// the other segments stay as they are and in their order.
#[verifier::external_body]
fn jpeg_remove_exif(jpeg: &mut img_parts::jpeg::Jpeg)
    ensures
        segments_of(*final(jpeg)) == without_exif(segments_of(*old(jpeg))),
{
    jpeg.set_exif(None)
}

/// For each segment of `img_parts::jpeg::Jpeg::segments`, the length of
/// `img_parts::jpeg::JpegSegment::contents` and
/// `img_parts::jpeg::JpegSegment::has_entropy`, which says whether
/// entropy-coded data follows.
#[verifier::external_body]
fn jpeg_shapes(jpeg: &img_parts::jpeg::Jpeg) -> (shapes: Vec<(usize, bool)>)
    ensures
        shapes@.len() == segments_of(*jpeg).len(),
        forall|i: int|
            0 <= i < shapes@.len() ==> {
                &&& (#[trigger] shapes@[i]).0 == segments_of(*jpeg)[i].1.len()
                &&& shapes@[i].1 == (segments_of(*jpeg)[i].2.len() > 0)
            },
{
    let shape = |segment: &img_parts::jpeg::JpegSegment| {
        (segment.contents().len(), segment.has_entropy())
    };
    jpeg.segments().iter().map(shape).collect()
}

/// `img_parts::jpeg::Jpeg::encoder`, then `img_parts::ImageEncoder::bytes`:
/// the marker of the start of the image, then for each segment 0xFF, the
/// marker, the length in two bytes, the contents and the entropy-coded
/// data, as `encoded_segments` puts them. The encoder panics on a segment
/// that is not writable, so none may be among them.
#[verifier::external_body]
fn jpeg_encode(jpeg: img_parts::jpeg::Jpeg) -> (bytes: Vec<u8>)
    requires
        writable(segments_of(jpeg)),
    ensures
        bytes@ == encoded_segments(segments_of(jpeg)),
{
    jpeg.encoder().bytes().to_vec()
}

/// Whether a segment with contents of this length, and with or without
/// entropy-coded data behind them, can be written.
pub open spec fn writable_shape(shape: (usize, bool)) -> bool {
    &&& shape.0 <= MAX_CONTENTS
    &&& (shape.0 > 0 || !shape.1)
}

/// Shapes that are those of the segments tell whether the segments can be
/// written.
pub proof fn lemma_shapes_tell_writable(
    shapes: Seq<(usize, bool)>,
    segments: Seq<(u8, Seq<u8>, Seq<u8>)>,
)
    requires
        shapes.len() == segments.len(),
        forall|i: int|
            0 <= i < shapes.len() ==> {
                &&& (#[trigger] shapes[i]).0 == segments[i].1.len()
                &&& shapes[i].1 == (segments[i].2.len() > 0)
            },
    ensures
        writable(segments) <==> forall|i: int|
            0 <= i < shapes.len() ==> writable_shape(#[trigger] shapes[i]),
{
    if writable(segments) {
        assert forall|i: int| 0 <= i < shapes.len() implies writable_shape(
            #[trigger] shapes[i],
        ) by {
            assert(writable_segment(segments[i]));
        }
    }
    if forall|i: int| 0 <= i < shapes.len() ==> writable_shape(#[trigger] shapes[i]) {
        assert forall|i: int| 0 <= i < segments.len() implies writable_segment(
            #[trigger] segments[i],
        ) by {
            assert(writable_shape(shapes[i]));
        }
    }
}

/// Judges the shapes of the segments of a container, each the length of
/// the contents and whether entropy-coded data follows: the container can
/// be written back exactly if every shape can.
pub fn shapes_writable(shapes: &Vec<(usize, bool)>) -> (yes: bool)
    ensures
        yes == forall|i: int| 0 <= i < shapes@.len() ==> writable_shape(#[trigger] shapes@[i]),
{
    let mut i: usize = 0;
    while i < shapes.len()
        invariant
            i <= shapes@.len(),
            forall|k: int| 0 <= k < i ==> writable_shape(#[trigger] shapes@[k]),
        decreases shapes@.len() - i,
    {
        let (contents, entropy) = shapes[i];
        if contents > MAX_CONTENTS || (contents == 0 && entropy) {
            assert(!writable_shape(shapes@[i as int]));
            return false;
        }
        i += 1;
    }
    true
}

/// The container of a JPEG image, read into its segments.
#[derive(Debug)]
pub struct Container {
    jpeg: img_parts::jpeg::Jpeg,
}

impl View for Container {
    type V = Seq<(u8, Seq<u8>, Seq<u8>)>;

    /// The segments, in order.
    closed spec fn view(&self) -> Seq<(u8, Seq<u8>, Seq<u8>)> {
        segments_of(self.jpeg)
    }
}

impl Container {
    /// Reads the container of `image`. It fails, with the parser's error,
    /// on exactly the images that the parser refuses.
    pub fn parse(image: &Vec<u8>) -> (parsed: Result<Container, Cause>)
        ensures
            match parsed {
                Ok(container) => parsed_segments(image@) == Some(container@),
                Err(cause) => parsed_segments(image@) is None && cause matches Cause::ImageSections(
                    SectionsFault::Parse(_),
                ),
            },
    {
        match parse_jpeg(image) {
            Ok(jpeg) => Ok(Container { jpeg }),
            Err(e) => Err(Cause::from(e)),
        }
    }

    /// The raw EXIF block, if the container holds one.
    pub fn exif(&self) -> (block: Option<Vec<u8>>)
        ensures
            match block {
                Some(bytes) => exif_block(self@) == Some(bytes@),
                None => exif_block(self@) is None,
            },
    {
        jpeg_exif(&self.jpeg)
    }

    /// Removes every EXIF segment and nothing else.
    pub fn strip_exif(&mut self)
        ensures
            final(self)@ == without_exif(old(self)@),
    {
        jpeg_remove_exif(&mut self.jpeg)
    }

    /// Whether the container can be written back.
    pub fn is_writable(&self) -> (yes: bool)
        ensures
            yes == writable(self@),
    {
        let shapes = jpeg_shapes(&self.jpeg);
        proof {
            lemma_shapes_tell_writable(shapes@, self@);
        }
        shapes_writable(&shapes)
    }

    /// The bytes of the container.
    pub fn into_bytes(self) -> (bytes: Vec<u8>)
        requires
            writable(self@),
        ensures
            bytes@ == encoded_segments(self@),
    {
        jpeg_encode(self.jpeg)
    }
}

} // verus!
