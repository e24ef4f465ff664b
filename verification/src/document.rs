//! The pages of a document, one for each image and in their order.

use vstd::prelude::*;
use crate::errors::BuildError;
use crate::errors::CauseKind;
use crate::page::Page;
use crate::page::PageView;
use crate::page::compose_page;
use crate::page::composed_page;

verus! {

/// The pages of a list of images as sequences of bytes of the payloads.
pub open spec fn page_views(pages: Seq<Page>) -> Seq<PageView> {
    Seq::new(pages.len(), |i: int| pages[i]@)
}

/// The images of a list as sequences of bytes.
pub open spec fn image_bytes(images: Seq<Vec<u8>>) -> Seq<Seq<u8>> {
    Seq::new(images.len(), |i: int| images[i]@)
}

/// Whether `outcome` is what composing `images` in their order comes to.
/// It is the list of their pages where every image becomes a page. Else
/// it is the position of the first image that becomes none, with the kind
/// of the cause.
pub open spec fn is_composition(
    images: Seq<Seq<u8>>,
    strip_exif: bool,
    outcome: Result<Seq<PageView>, (usize, CauseKind)>,
) -> bool {
    match outcome {
        Ok(pages) => {
            &&& pages.len() == images.len()
            &&& forall|i: int|
                0 <= i < images.len() ==> composed_page(images[i], strip_exif) == Ok::<
                    PageView,
                    CauseKind,
                >(#[trigger] pages[i])
        },
        Err((index, kind)) => {
            &&& index < images.len()
            &&& composed_page(images[index as int], strip_exif) == Err::<PageView, CauseKind>(kind)
            &&& forall|i: int|
                0 <= i < index ==> (#[trigger] composed_page(images[i], strip_exif)) is Ok
        },
    }
}

/// Composing the same images with the same setting comes to the same
/// outcome each time: the same pages, with the same payloads and the same
/// geometry, or the same failing position with a cause of the same kind.
pub proof fn lemma_composition_is_unique(
    images: Seq<Seq<u8>>,
    strip_exif: bool,
    first: Result<Seq<PageView>, (usize, CauseKind)>,
    second: Result<Seq<PageView>, (usize, CauseKind)>,
)
    requires
        is_composition(images, strip_exif, first),
        is_composition(images, strip_exif, second),
    ensures
        first == second,
{
    match (first, second) {
        (Ok(a), Ok(b)) => {
            assert forall|i: int| 0 <= i < a.len() implies a[i] == b[i] by {
                assert(composed_page(images[i], strip_exif) == Ok::<PageView, CauseKind>(a[i]));
                assert(composed_page(images[i], strip_exif) == Ok::<PageView, CauseKind>(b[i]));
            }
            assert(a =~= b);
        },
        (Ok(a), Err((j, _))) => {
            assert(composed_page(images[j as int], strip_exif) == Ok::<PageView, CauseKind>(
                a[j as int],
            ));
        },
        (Err((i, _)), Ok(b)) => {
            assert(composed_page(images[i as int], strip_exif) == Ok::<PageView, CauseKind>(
                b[i as int],
            ));
        },
        (Err((i, _)), Err((j, _))) => {
            if i < j {
                assert(composed_page(images[i as int], strip_exif) is Ok);
            } else if j < i {
                assert(composed_page(images[j as int], strip_exif) is Ok);
            }
        },
    }
}

/// A list of images becomes a document exactly where each image becomes a
/// page, and the document then has one page for each image.
pub proof fn lemma_one_page_for_each_image(
    images: Seq<Seq<u8>>,
    strip_exif: bool,
    outcome: Result<Seq<PageView>, (usize, CauseKind)>,
)
    requires
        is_composition(images, strip_exif, outcome),
    ensures
        outcome is Ok <==> forall|i: int|
            0 <= i < images.len() ==> (#[trigger] composed_page(images[i], strip_exif)) is Ok,
        outcome matches Ok(pages) ==> pages.len() == images.len(),
{
    match outcome {
        Ok(pages) => {
            assert forall|i: int| 0 <= i < images.len() implies (#[trigger] composed_page(
                images[i],
                strip_exif,
            )) is Ok by {
                assert(composed_page(images[i], strip_exif) == Ok::<PageView, CauseKind>(pages[i]));
            }
        },
        Err((index, _)) => {
            assert(!(composed_page(images[index as int], strip_exif) is Ok));
        },
    }
}

/// In a document, each page is that of the image at its place in the
/// list; where EXIF is kept, the payload of the page is that image, byte
/// for byte.
pub proof fn lemma_page_follows_its_image(
    images: Seq<Seq<u8>>,
    strip_exif: bool,
    pages: Seq<PageView>,
    i: int,
)
    requires
        is_composition(images, strip_exif, Ok(pages)),
        0 <= i < images.len(),
    ensures
        pages.len() == images.len(),
        composed_page(images[i], strip_exif) == Ok::<PageView, CauseKind>(pages[i]),
        !strip_exif ==> pages[i].payload == images[i],
{
    assert(composed_page(images[i], strip_exif) == Ok::<PageView, CauseKind>(pages[i]));
}

/// Composes one page for each image, in the order of the images, and stops
/// at the first image that fails: the error holds its position and the
/// cause. An empty list gives an empty list of pages.
pub fn compose_pages(images: Vec<Vec<u8>>, strip_exif: bool) -> (composed: Result<
    Vec<Page>,
    BuildError,
>)
    ensures
        is_composition(
            image_bytes(images@),
            strip_exif,
            match composed {
                Ok(pages) => Ok(page_views(pages@)),
                Err(error) => Err((error.index, error.cause.kind())),
            },
        ),
{
    let mut pages: Vec<Page> = Vec::new();
    let ghost all = image_bytes(images@);
    for image in it: images
        invariant
            all == image_bytes(it.seq()),
            pages@.len() == it.index(),
            forall|i: int|
                0 <= i < pages@.len() ==> composed_page(all[i], strip_exif) == Ok::<
                    PageView,
                    CauseKind,
                >(#[trigger] pages@[i]@),
    {
        let index = pages.len();
        match compose_page(image, strip_exif) {
            Ok(page) => {
                pages.push(page);
            },
            Err(cause) => {
                assert forall|i: int| 0 <= i < index implies (#[trigger] composed_page(
                    all[i],
                    strip_exif,
                )) is Ok by {
                    assert(composed_page(all[i], strip_exif) == Ok::<PageView, CauseKind>(
                        pages@[i]@,
                    ));
                }
                return Err(BuildError { index, cause });
            },
        }
    }
    Ok(pages)
}

} // verus!
