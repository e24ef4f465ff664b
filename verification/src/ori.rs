//! The placement that an EXIF orientation code asks for.

use vstd::prelude::*;

verus! {

/// An EXIF orientation code with the stored pixel dimensions of the image.
#[derive(Debug, Clone, Copy)]
pub struct Orientation {
    pub value: u32,
    pub width: usize,
    pub height: usize,
}

/// How an image is shown: the displayed size and the offset in pixels, the
/// rotation in degrees and the horizontal mirror factor. `None` stands for
/// no offset, no rotation and no mirroring. The image is never scaled
/// vertically.
#[derive(Debug, Clone, Copy, PartialEq, Eq, Structural)]
pub struct Geometry {
    pub display_width: usize,
    pub display_height: usize,
    pub translate_x: Option<usize>,
    pub translate_y: Option<usize>,
    pub rotate_cw: Option<u16>,
    pub scale_x: Option<i8>,
}

/// The geometry of each orientation code, one row for each code from 2 to
/// 8. Code 1 and every other code show the image as it is stored.
pub open spec fn geometry_of(value: u32, width: usize, height: usize) -> Geometry {
    let w = width;
    let h = height;
    if value == 2 {
        row(w, h, Some(w), None, None, Some(-1i8))
    } else if value == 3 {
        row(w, h, Some(w), Some(h), Some(180u16), None)
    } else if value == 4 {
        row(w, h, None, Some(h), Some(180u16), Some(-1i8))
    } else if value == 5 {
        row(h, w, Some(h), Some(w), Some(90u16), Some(-1i8))
    } else if value == 6 {
        row(h, w, None, Some(w), Some(270u16), None)
    } else if value == 7 {
        row(h, w, None, None, Some(270u16), Some(-1i8))
    } else if value == 8 {
        row(h, w, Some(h), None, Some(90u16), None)
    } else {
        row(w, h, None, None, None, None)
    }
}

/// A row of the table: displayed width and height, offsets to the right
/// and upwards, rotation, mirror factor.
pub open spec fn row(
    display_width: usize,
    display_height: usize,
    translate_x: Option<usize>,
    translate_y: Option<usize>,
    rotate_cw: Option<u16>,
    scale_x: Option<i8>,
) -> Geometry {
    Geometry { display_width, display_height, translate_x, translate_y, rotate_cw, scale_x }
}

/// The geometry of an image that is shown as it is stored.
pub open spec fn as_stored(width: usize, height: usize) -> Geometry {
    Geometry {
        display_width: width,
        display_height: height,
        translate_x: None,
        translate_y: None,
        rotate_cw: None,
        scale_x: None,
    }
}

/// A code outside 1..=8 is treated as code 1 is: the image is shown as it
/// is stored, with its own width and height and without offset, rotation
/// or mirroring.
pub proof fn lemma_unknown_code_shows_as_stored(value: u32, width: usize, height: usize)
    requires
        value < 1 || value > 8,
    ensures
        geometry_of(value, width, height) == as_stored(width, height),
        geometry_of(value, width, height) == geometry_of(1, width, height),
{
}

/// The codes 5 to 8 turn the image by a quarter, so the displayed width is
/// the stored height and the displayed height is the stored width; under
/// every other code both are as stored.
pub proof fn lemma_display_size(value: u32, width: usize, height: usize)
    ensures
        5 <= value <= 8 ==> {
            &&& geometry_of(value, width, height).display_width == height
            &&& geometry_of(value, width, height).display_height == width
        },
        !(5 <= value <= 8) ==> {
            &&& geometry_of(value, width, height).display_width == width
            &&& geometry_of(value, width, height).display_height == height
        },
{
}

impl Orientation {
    /// The row of the table for this orientation.
    pub open spec fn spec_geometry(self) -> Geometry {
        geometry_of(self.value, self.width, self.height)
    }

    pub fn display_width(self) -> (px: usize)
        ensures
            px == self.spec_geometry().display_width,
    {
        match self.value {
            5..=8 => self.height,
            _ => self.width,
        }
    }

    pub fn display_height(self) -> (px: usize)
        ensures
            px == self.spec_geometry().display_height,
    {
        match self.value {
            5..=8 => self.width,
            _ => self.height,
        }
    }

    pub fn translate_x(self) -> (px: Option<usize>)
        ensures
            px == self.spec_geometry().translate_x,
    {
        match self.value {
            2 | 3 => Some(self.width),
            5 | 8 => Some(self.height),
            _ => None,
        }
    }

    pub fn translate_y(self) -> (px: Option<usize>)
        ensures
            px == self.spec_geometry().translate_y,
    {
        match self.value {
            3 | 4 => Some(self.height),
            5 | 6 => Some(self.width),
            _ => None,
        }
    }

    /// The rotation in whole degrees. The PDF writer calls this angle
    /// clockwise; on the page it turns the image counterclockwise.
    pub fn rotate_cw(self) -> (degrees: Option<u16>)
        ensures
            degrees == self.spec_geometry().rotate_cw,
    {
        match self.value {
            3 | 4 => Some(180),
            5 | 8 => Some(90),
            6 | 7 => Some(270),
            _ => None,
        }
    }

    /// The horizontal scale factor: `-1` mirrors the image.
    pub fn scale_x(self) -> (factor: Option<i8>)
        ensures
            factor == self.spec_geometry().scale_x,
    {
        match self.value {
            2 | 4 | 5 | 7 => Some(-1),
            _ => None,
        }
    }

    /// All six values at once.
    #[verifier::when_used_as_spec(spec_geometry)]
    pub fn geometry(self) -> (geometry: Geometry)
        ensures
            geometry == self.spec_geometry(),
    {
        Geometry {
            display_width: self.display_width(),
            display_height: self.display_height(),
            translate_x: self.translate_x(),
            translate_y: self.translate_y(),
            rotate_cw: self.rotate_cw(),
            scale_x: self.scale_x(),
        }
    }
}

} // verus!
