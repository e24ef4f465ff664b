//! From the EXIF block of an image to its orientation code.

use vstd::prelude::*;

verus! {

/// The orientation of an image that records none.
pub const DEFAULT_ORIENTATION: u32 = 1;

/// What a search for the orientation tag in an EXIF block found.
#[derive(Debug, Clone, Copy, PartialEq, Eq, Structural)]
pub enum TagLookup {
    /// The block could not be parsed.
    Unparseable,
    /// The block holds no orientation tag for the primary image.
    Absent,
    /// The tag is there, but its value is no unsigned integer.
    NotUnsigned,
    /// The first unsigned integer of the tag's value.
    Unsigned(u32),
}

/// What the EXIF decoder finds of the orientation tag in a raw EXIF block.
pub uninterp spec fn orientation_lookup(exif: Seq<u8>) -> TagLookup;

/// `exif::Reader::read_raw` on the block, `exif::Exif::get_field` for the
/// orientation tag of the primary image, and `exif::Value::get_uint` for the
/// first number of its value. Each outcome of the three has its own
/// variant; the same block gives the same answer, that of
/// `orientation_lookup`.
#[verifier::external_body]
fn look_up_orientation(exif: Vec<u8>) -> (found: TagLookup)
    ensures
        found == orientation_lookup(exif@),
{
    match exif::Reader::new().read_raw(exif) {
        Err(_) => TagLookup::Unparseable,
        Ok(parsed) => match parsed.get_field(exif::Tag::Orientation, exif::In::PRIMARY) {
            None => TagLookup::Absent,
            Some(field) => match field.value.get_uint(0) {
                None => TagLookup::NotUnsigned,
                Some(value) => TagLookup::Unsigned(value),
            },
        },
    }
}

/// The code that stands for an image whose EXIF block, if it has one, gave
/// `found`: the number of the tag where one was read, else the default.
pub open spec fn code_for(found: Option<TagLookup>) -> u32 {
    match found {
        Some(TagLookup::Unsigned(value)) => value,
        _ => DEFAULT_ORIENTATION,
    }
}

/// What `resolve_orientation` returns for an image with this EXIF block.
pub open spec fn resolved_orientation(exif: Option<Seq<u8>>) -> u32 {
    match exif {
        None => DEFAULT_ORIENTATION,
        Some(block) => code_for(Some(orientation_lookup(block))),
    }
}

/// Settles the orientation code in four steps, each with a definite
/// answer: no EXIF block, a block that cannot be parsed, a block without
/// the tag and a tag that is no unsigned integer all give the default. A
/// number outside 1..=8 is handed on as it is.
pub fn orientation_code(found: Option<TagLookup>) -> (code: u32)
    ensures
        code == code_for(found),
{
    match found {
        None => DEFAULT_ORIENTATION,
        Some(TagLookup::Unparseable) => DEFAULT_ORIENTATION,
        Some(TagLookup::Absent) => DEFAULT_ORIENTATION,
        Some(TagLookup::NotUnsigned) => DEFAULT_ORIENTATION,
        Some(TagLookup::Unsigned(value)) => value,
    }
}

/// The orientation code of an image with the given raw EXIF block.
pub fn resolve_orientation(exif: Option<Vec<u8>>) -> (code: u32)
    ensures
        code == resolved_orientation(
            match exif {
                Some(block) => Some(block@),
                None => None,
            },
        ),
{
    match exif {
        None => orientation_code(None),
        Some(block) => orientation_code(Some(look_up_orientation(block))),
    }
}

} // verus!
