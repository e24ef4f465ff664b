//! Lays out JPEG images as the pages of a PDF document.
//!
//! Each image keeps its compressed bytes; the orientation that its EXIF
//! metadata records is applied by the placement of the image on its page.
//! The library decides what stands on each page and where; writing the
//! pages out as a PDF file is left to the caller.

pub mod builder;
pub mod container;
pub mod document;
pub mod errors;
pub mod header;
pub mod ori;
pub mod page;
pub mod resolver;

pub use builder::Document;
pub use builder::JpegToPdf;
pub use errors::BuildError;
pub use errors::Cause;
pub use errors::CauseKind;
pub use errors::FaultKind;
pub use errors::SectionsFault;
pub use header::ColorFormat;
pub use header::ImageHeader;
pub use ori::Geometry;
pub use ori::Orientation;
pub use page::Page;
