//! The settings of a document and the images that go into it.

use vstd::prelude::*;
use crate::document::compose_pages;
use crate::document::image_bytes;
use crate::document::is_composition;
use crate::document::page_views;
use crate::errors::BuildError;
use crate::page::Page;

verus! {

/// `printpdf::OffsetDateTime`, a date with a time and an offset. Nothing is
/// claimed of what it holds.
#[verifier::external_type_specification]
#[verifier::external_body]
pub struct ExOffsetDateTime(printpdf::OffsetDateTime);

/// `printpdf::OffsetDateTime::now_utc`: the time of the call, of which
/// nothing is claimed.
#[verifier::external_body]
fn now_utc() -> (now: printpdf::OffsetDateTime) {
    printpdf::OffsetDateTime::now_utc()
}

/// Creates a PDF from JPEG images: the images in their order, and the
/// settings of the document.
pub struct JpegToPdf {
    images: Vec<Vec<u8>>,
    strip_exif: bool,
    document_title: String,
    creation_date: printpdf::OffsetDateTime,
    mod_date: printpdf::OffsetDateTime,
}

/// What a `JpegToPdf` holds.
pub struct Settings {
    pub images: Seq<Seq<u8>>,
    pub strip_exif: bool,
    pub document_title: Seq<char>,
    pub creation_date: printpdf::OffsetDateTime,
    pub mod_date: printpdf::OffsetDateTime,
}

/// What is handed to the writer of the document: the title, the dates and
/// the pages in their order.
#[derive(Debug)]
pub struct Document {
    pub title: String,
    pub creation_date: printpdf::OffsetDateTime,
    pub mod_date: printpdf::OffsetDateTime,
    pub pages: Vec<Page>,
}

impl View for JpegToPdf {
    type V = Settings;

    closed spec fn view(&self) -> Settings {
        Settings {
            images: image_bytes(self.images@),
            strip_exif: self.strip_exif,
            document_title: self.document_title@,
            creation_date: self.creation_date,
            mod_date: self.mod_date,
        }
    }
}

impl JpegToPdf {
    /// The settings of a document that is begun at the time `now`: no
    /// images, EXIF kept, an empty title, and `now` as the date of creation
    /// and of modification.
    pub fn begun_at(now: printpdf::OffsetDateTime) -> (job: JpegToPdf)
        ensures
            job@ == (Settings {
                images: Seq::empty(),
                strip_exif: false,
                document_title: Seq::empty(),
                creation_date: now,
                mod_date: now,
            }),
    {
        let job = JpegToPdf {
            images: Vec::new(),
            strip_exif: false,
            document_title: String::new(),
            creation_date: now,
            mod_date: now,
        };
        assert(image_bytes(job.images@) =~= Seq::<Seq<u8>>::empty());
        job
    }

    /// The settings of a document that is begun now: those of `begun_at`
    /// for the time of the call, so both dates are the same.
    pub fn new() -> (job: JpegToPdf)
        ensures
            job@ == (Settings {
                images: Seq::empty(),
                strip_exif: false,
                document_title: Seq::empty(),
                creation_date: job@.creation_date,
                mod_date: job@.creation_date,
            }),
    {
        JpegToPdf::begun_at(now_utc())
    }

    /// Add an image to the PDF output.
    pub fn add_image(self, image: Vec<u8>) -> (job: JpegToPdf)
        ensures
            job@ == (Settings { images: self@.images.push(image@), ..self@ }),
    {
        let mut job = self;
        job.images.push(image);
        assert(image_bytes(job.images@) =~= image_bytes(self.images@).push(image@));
        job
    }

    /// Add one or more images to the PDF output, after those that are
    /// there.
    pub fn add_images(self, images: Vec<Vec<u8>>) -> (job: JpegToPdf)
        ensures
            job@ == (Settings { images: self@.images + image_bytes(images@), ..self@ }),
    {
        let mut job = self;
        let mut added = images;
        job.images.append(&mut added);
        assert(image_bytes(job.images@) =~= image_bytes(self.images@) + image_bytes(images@));
        job
    }

    /// Strip EXIF metadata from the provided images.
    ///
    /// Some PDF renderers have issues rendering JPEG images that still have
    /// EXIF metadata.
    pub fn strip_exif(self, strip_exif: bool) -> (job: JpegToPdf)
        ensures
            job@ == (Settings { strip_exif, ..self@ }),
    {
        let mut job = self;
        job.strip_exif = strip_exif;
        job
    }

    /// Sets the title of the PDF output.
    pub fn set_document_title(self, document_title: String) -> (job: JpegToPdf)
        ensures
            job@ == (Settings { document_title: document_title@, ..self@ }),
    {
        let mut job = self;
        job.document_title = document_title;
        job
    }

    /// Sets the creation date of the PDF output.
    pub fn set_creation_date(self, creation_date: printpdf::OffsetDateTime) -> (job: JpegToPdf)
        ensures
            job@ == (Settings { creation_date, ..self@ }),
    {
        let mut job = self;
        job.creation_date = creation_date;
        job
    }

    /// Sets the modification date of the PDF output.
    pub fn set_mod_date(self, mod_date: printpdf::OffsetDateTime) -> (job: JpegToPdf)
        ensures
            job@ == (Settings { mod_date, ..self@ }),
    {
        let mut job = self;
        job.mod_date = mod_date;
        job
    }

    /// Composes the document: one page for each image, in the order in
    /// which the images were added. The first image that fails ends the
    /// work, and no document is made.
    pub fn compose(self) -> (composed: Result<Document, BuildError>)
        ensures
            match composed {
                Ok(document) => {
                    &&& document.title@ == self@.document_title
                    &&& document.creation_date == self@.creation_date
                    &&& document.mod_date == self@.mod_date
                    &&& is_composition(
                        self@.images,
                        self@.strip_exif,
                        Ok(page_views(document.pages@)),
                    )
                },
                Err(error) => is_composition(
                    self@.images,
                    self@.strip_exif,
                    Err((error.index, error.cause.kind())),
                ),
            },
    {
        match compose_pages(self.images, self.strip_exif) {
            Ok(pages) => Ok(
                Document {
                    title: self.document_title,
                    creation_date: self.creation_date,
                    mod_date: self.mod_date,
                    pages,
                },
            ),
            Err(error) => Err(error),
        }
    }
}

} // verus!
