//! What can go wrong while a document is put together, and how it reads.

use vstd::prelude::*;
use vstd::std_specs::convert::FromSpecImpl;
use vstd::string::to_string_from_display_ensures;

verus! {

/// `jpeg_decoder::Error`, the error of the header decoder. Nothing is
/// claimed of what it holds.
#[verifier::external_type_specification]
#[verifier::external_body]
pub struct ExImageInfoError(jpeg_decoder::Error);

/// `img_parts::Error`, the error of the container parser. Nothing is claimed
/// of what it holds.
#[verifier::external_type_specification]
#[verifier::external_body]
pub struct ExImageSectionsError(img_parts::Error);

/// `printpdf::Error`, the error of the document writer. Nothing is claimed
/// of what it holds.
#[verifier::external_type_specification]
#[verifier::external_body]
pub struct ExPdfWriteError(printpdf::Error);

/// Why the container of an image was refused.
#[derive(Debug)]
pub enum SectionsFault {
    /// The parser reported an error.
    Parse(img_parts::Error),
    /// The container was read, but cannot be written back without its EXIF
    /// segments: a segment is too long, or a scan header without contents
    /// is followed by image data.
    Unwritable,
}

/// Things that might go wrong while creating a PDF from JPEGs.
#[derive(Debug)]
pub enum Cause {
    /// The compressed header could not be decoded.
    ImageInfo(jpeg_decoder::Error),
    /// The header was decoded, yet gave no metadata.
    UnexpectedImageInfo,
    /// The container of segments is malformed.
    ImageSections(SectionsFault),
    /// The finished document could not be written.
    PdfWrite(printpdf::Error),
}

/// Which fault of the container it is, without the parser's own error.
#[derive(Debug, Clone, Copy, PartialEq, Eq, Structural)]
pub enum FaultKind {
    Parse,
    Unwritable,
}

/// Which of the causes it is, without the collaborator's own error.
#[derive(Debug, Clone, Copy, PartialEq, Eq, Structural)]
pub enum CauseKind {
    ImageInfo,
    UnexpectedImageInfo,
    ImageSections(FaultKind),
    PdfWrite,
}

/// An error that might occur while creating a PDF from JPEGs.
#[derive(Debug)]
pub struct BuildError {
    /// Zero-based position of the image at fault; 0 for a write failure.
    pub index: usize,
    pub cause: Cause,
}

/// The decimal digit `d`, for `d` below ten.
pub open spec fn digit_char(d: nat) -> char {
    if d == 0 {
        '0'
    } else if d == 1 {
        '1'
    } else if d == 2 {
        '2'
    } else if d == 3 {
        '3'
    } else if d == 4 {
        '4'
    } else if d == 5 {
        '5'
    } else if d == 6 {
        '6'
    } else if d == 7 {
        '7'
    } else if d == 8 {
        '8'
    } else {
        '9'
    }
}

/// The digits of `n` in base ten, without leading zeros.
pub open spec fn decimal_digits(n: nat) -> Seq<char>
    decreases n,
{
    if n < 10 {
        seq![digit_char(n)]
    } else {
        decimal_digits(n / 10).push(digit_char(n % 10))
    }
}

/// The text of a cause of the given kind, where `detail` is what the
/// collaborator's own error reads.
pub open spec fn cause_text(kind: CauseKind, detail: Seq<char>) -> Seq<char> {
    match kind {
        CauseKind::ImageInfo => "failed to read image info: "@ + detail,
        CauseKind::UnexpectedImageInfo => "unexpectedly failed to read image info"@,
        CauseKind::ImageSections(FaultKind::Parse) => "failed to read image sections: "@ + detail,
        CauseKind::ImageSections(FaultKind::Unwritable) => "failed to read image sections: "@
            + "the segments cannot be written back"@,
        CauseKind::PdfWrite => "failed to write PDF: "@ + detail,
    }
}

/// The text of an error: a write failure reads as its cause does, every
/// other error names the image first.
pub open spec fn error_text(index: usize, kind: CauseKind, cause: Seq<char>) -> Seq<char> {
    match kind {
        CauseKind::PdfWrite => cause,
        _ => "error with JPEG index "@ + decimal_digits(index as nat) + ": "@ + cause,
    }
}

fn digit_str(d: usize) -> (s: &'static str)
    requires
        d < 10,
    ensures
        s@ == seq![digit_char(d as nat)],
{
    proof {
        reveal_strlit("0");
        reveal_strlit("1");
        reveal_strlit("2");
        reveal_strlit("3");
        reveal_strlit("4");
        reveal_strlit("5");
        reveal_strlit("6");
        reveal_strlit("7");
        reveal_strlit("8");
        reveal_strlit("9");
    }
    let s = if d == 0 {
        "0"
    } else if d == 1 {
        "1"
    } else if d == 2 {
        "2"
    } else if d == 3 {
        "3"
    } else if d == 4 {
        "4"
    } else if d == 5 {
        "5"
    } else if d == 6 {
        "6"
    } else if d == 7 {
        "7"
    } else if d == 8 {
        "8"
    } else {
        "9"
    };
    assert(s@ =~= seq![digit_char(d as nat)]);
    s
}

fn decimal(n: usize) -> (s: String)
    ensures
        s@ == decimal_digits(n as nat),
    decreases n,
{
    if n < 10 {
        String::from_str(digit_str(n))
    } else {
        let s = decimal(n / 10).concat(digit_str(n % 10));
        assert(s@ =~= decimal_digits(n as nat));
        s
    }
}

/// Puts the text of a cause together from its kind and from what the
/// collaborator's error reads.
pub fn describe_cause(kind: CauseKind, detail: &str) -> (text: String)
    ensures
        text@ == cause_text(kind, detail@),
{
    match kind {
        CauseKind::ImageInfo => String::from_str("failed to read image info: ").concat(detail),
        CauseKind::UnexpectedImageInfo => String::from_str("unexpectedly failed to read image info"),
        CauseKind::ImageSections(FaultKind::Parse) => String::from_str(
            "failed to read image sections: ",
        ).concat(detail),
        CauseKind::ImageSections(FaultKind::Unwritable) => String::from_str(
            "failed to read image sections: ",
        ).concat("the segments cannot be written back"),
        CauseKind::PdfWrite => String::from_str("failed to write PDF: ").concat(detail),
    }
}

/// Puts the text of an error together from the index, the kind of its
/// cause and the text of its cause.
pub fn describe_error(index: usize, kind: CauseKind, cause: &str) -> (text: String)
    ensures
        text@ == error_text(index, kind, cause@),
{
    match kind {
        CauseKind::PdfWrite => String::from_str(cause),
        _ => {
            let text = String::from_str("error with JPEG index ").concat(
                decimal(index).as_str(),
            ).concat(": ").concat(cause);
            assert(text@ =~= error_text(index, kind, cause@));
            text
        },
    }
}

impl SectionsFault {
    pub open spec fn spec_kind(&self) -> FaultKind {
        match self {
            SectionsFault::Parse(_) => FaultKind::Parse,
            SectionsFault::Unwritable => FaultKind::Unwritable,
        }
    }

    #[verifier::when_used_as_spec(spec_kind)]
    pub fn kind(&self) -> (kind: FaultKind)
        ensures
            kind == self.spec_kind(),
    {
        match self {
            SectionsFault::Parse(_) => FaultKind::Parse,
            SectionsFault::Unwritable => FaultKind::Unwritable,
        }
    }
}

impl Cause {
    pub open spec fn spec_kind(&self) -> CauseKind {
        match self {
            Cause::ImageInfo(_) => CauseKind::ImageInfo,
            Cause::UnexpectedImageInfo => CauseKind::UnexpectedImageInfo,
            Cause::ImageSections(fault) => CauseKind::ImageSections(fault.spec_kind()),
            Cause::PdfWrite(_) => CauseKind::PdfWrite,
        }
    }

    #[verifier::when_used_as_spec(spec_kind)]
    pub fn kind(&self) -> (kind: CauseKind)
        ensures
            kind == self.spec_kind(),
    {
        match self {
            Cause::ImageInfo(_) => CauseKind::ImageInfo,
            Cause::UnexpectedImageInfo => CauseKind::UnexpectedImageInfo,
            Cause::ImageSections(fault) => CauseKind::ImageSections(fault.kind()),
            Cause::PdfWrite(_) => CauseKind::PdfWrite,
        }
    }

    /// Whether `detail` is what the collaborator's error inside this cause
    /// reads; a cause without such an error has no detail.
    pub open spec fn reads(&self, detail: String) -> bool {
        match self {
            Cause::ImageInfo(e) => to_string_from_display_ensures::<jpeg_decoder::Error>(
                e,
                detail,
            ),
            Cause::ImageSections(SectionsFault::Parse(e)) => to_string_from_display_ensures::<
                img_parts::Error,
            >(e, detail),
            Cause::PdfWrite(e) => to_string_from_display_ensures::<printpdf::Error>(e, detail),
            _ => detail@ == Seq::<char>::empty(),
        }
    }

    /// The text of this cause: `cause_text` of its kind and of what the
    /// error inside it reads.
    pub fn message(&self) -> (text: String)
        ensures
            exists|detail: String| self.reads(detail) && text@ == cause_text(self.kind(), detail@),
    {
        let detail = match self {
            Cause::ImageInfo(e) => e.to_string(),
            Cause::ImageSections(SectionsFault::Parse(e)) => e.to_string(),
            Cause::PdfWrite(e) => e.to_string(),
            _ => String::new(),
        };
        assert(self.reads(detail));
        describe_cause(self.kind(), detail.as_str())
    }
}

impl BuildError {
    /// The error of a document that could not be written. Every page was
    /// composed by then, so no image is at fault: the index is 0.
    pub fn write_failure(e: printpdf::Error) -> (error: BuildError)
        ensures
            error.index == 0,
            error.cause == Cause::PdfWrite(e),
    {
        BuildError { index: 0, cause: Cause::PdfWrite(e) }
    }

    /// The text of this error: `error_text` of its index and of its cause.
    pub fn message(&self) -> (text: String)
        ensures
            exists|detail: String|
                self.cause.reads(detail) && text@ == error_text(
                    self.index,
                    self.cause.kind(),
                    cause_text(self.cause.kind(), detail@),
                ),
    {
        let cause = self.cause.message();
        describe_error(self.index, self.cause.kind(), cause.as_str())
    }
}

impl From<jpeg_decoder::Error> for Cause {
    fn from(e: jpeg_decoder::Error) -> (cause: Cause) {
        Cause::ImageInfo(e)
    }
}

impl FromSpecImpl<jpeg_decoder::Error> for Cause {
    open spec fn obeys_from_spec() -> bool {
        true
    }

    open spec fn from_spec(e: jpeg_decoder::Error) -> Cause {
        Cause::ImageInfo(e)
    }
}

impl From<img_parts::Error> for Cause {
    fn from(e: img_parts::Error) -> (cause: Cause) {
        Cause::ImageSections(SectionsFault::Parse(e))
    }
}

impl FromSpecImpl<img_parts::Error> for Cause {
    open spec fn obeys_from_spec() -> bool {
        true
    }

    open spec fn from_spec(e: img_parts::Error) -> Cause {
        Cause::ImageSections(SectionsFault::Parse(e))
    }
}

} // verus!
