//! The header of a JPEG image: its pixel size and its colour format.

use vstd::prelude::*;
use crate::errors::Cause;
use crate::errors::CauseKind;

verus! {

/// The colour format of the stored pixels, eight bits per component.
#[derive(Debug, Clone, Copy, PartialEq, Eq, Structural)]
pub enum ColorFormat {
    Grayscale,
    Rgb,
    Cmyk,
}

/// What the header of an image says of its pixels.
#[derive(Debug, Clone, Copy, PartialEq, Eq, Structural)]
pub struct ImageHeader {
    pub width: u16,
    pub height: u16,
    pub color: ColorFormat,
}

/// What the header decoder makes of the bytes of an image: `None` where it
/// reports an error, `Some(None)` where it succeeds without metadata, else
/// the header.
pub uninterp spec fn decoded_header(image: Seq<u8>) -> Option<Option<ImageHeader>>;

/// `jpeg_decoder::Decoder::read_info` on the bytes, then
/// `jpeg_decoder::Decoder::info`, which give the same answer for the same
/// bytes: the answer is that of `decoded_header`. The pixel formats become
/// colour formats one for one.
#[verifier::external_body]
fn read_header(image: &Vec<u8>) -> (decoded: Result<Option<ImageHeader>, jpeg_decoder::Error>)
    ensures
        match decoded {
            Ok(found) => decoded_header(image@) == Some(found),
            Err(_) => decoded_header(image@) is None,
        },
{
    let mut decoder = jpeg_decoder::Decoder::new(image.as_slice());
    decoder.read_info()?;
    Ok(decoder.info().map(|info| ImageHeader {
        width: info.width,
        height: info.height,
        color: match info.pixel_format {
            jpeg_decoder::PixelFormat::L8 => ColorFormat::Grayscale,
            jpeg_decoder::PixelFormat::RGB24 => ColorFormat::Rgb,
            jpeg_decoder::PixelFormat::CMYK32 => ColorFormat::Cmyk,
        },
    }))
}

/// What the outcome of the decoder comes to: the header, or the kind of
/// the cause for which there is none.
pub open spec fn header_outcome(decoded: Option<Option<ImageHeader>>) -> Result<
    ImageHeader,
    CauseKind,
> {
    match decoded {
        None => Err(CauseKind::ImageInfo),
        Some(None) => Err(CauseKind::UnexpectedImageInfo),
        Some(Some(header)) => Ok(header),
    }
}

/// Judges what the decoder handed back. Its error becomes an `ImageInfo`
/// cause that holds it. Success without metadata, which a decoder that
/// keeps its word never shows, is an `UnexpectedImageInfo` cause.
pub fn header_from(decoded: Result<Option<ImageHeader>, jpeg_decoder::Error>) -> (header: Result<
    ImageHeader,
    Cause,
>)
    ensures
        match decoded {
            Ok(Some(found)) => header == Ok::<ImageHeader, Cause>(found),
            Ok(None) => header == Err::<ImageHeader, Cause>(Cause::UnexpectedImageInfo),
            Err(e) => header == Err::<ImageHeader, Cause>(Cause::ImageInfo(e)),
        },
{
    match decoded {
        Ok(Some(found)) => Ok(found),
        Ok(None) => Err(Cause::UnexpectedImageInfo),
        Err(e) => Err(Cause::from(e)),
    }
}

/// Decodes the header of `image`. It succeeds on exactly the images of
/// which the decoder gives the header, and fails with a cause of the kind
/// that `header_outcome` gives.
pub fn header_of(image: &Vec<u8>) -> (header: Result<ImageHeader, Cause>)
    ensures
        match header {
            Ok(found) => header_outcome(decoded_header(image@)) == Ok::<ImageHeader, CauseKind>(
                found,
            ),
            Err(cause) => header_outcome(decoded_header(image@)) == Err::<ImageHeader, CauseKind>(
                cause.kind(),
            ),
        },
{
    header_from(read_header(image))
}

} // verus!
