//! Reading and writing comic book archives (`cbz`, `cbt`, `cb7`) with
//! `ComicInfo.xml` metadata: the decisions of the readers and writers, and the
//! metadata model, with their contracts.
use vstd::prelude::*;

pub mod text;
pub mod path;
pub mod read;
pub mod comicinfo;
pub mod write;

verus! {

/// The file extensions of the images that archives hold as pages.
pub const SUPPORTED_IMAGES_TYPES: [&'static str; 6] = ["png", "jpg", "jpeg", "webp", "avif", "gif"];

/// Whether `ext` is one of `SUPPORTED_IMAGES_TYPES`.
pub open spec fn is_supported_image_type(ext: Seq<char>) -> bool {
    ||| ext == "png"@
    ||| ext == "jpg"@
    ||| ext == "jpeg"@
    ||| ext == "webp"@
    ||| ext == "avif"@
    ||| ext == "gif"@
}

/// `is_supported_image_type` holds exactly of the texts listed in `SUPPORTED_IMAGES_TYPES`.
pub proof fn lemma_supported_images_types_listed(ext: Seq<char>)
    ensures
        is_supported_image_type(ext) <==> exists|i: int|
            0 <= i < 6 && #[trigger] SUPPORTED_IMAGES_TYPES[i]@ == ext,
{
    if is_supported_image_type(ext) {
        if ext == "png"@ {
            assert(SUPPORTED_IMAGES_TYPES[0]@ == ext);
        } else if ext == "jpg"@ {
            assert(SUPPORTED_IMAGES_TYPES[1]@ == ext);
        } else if ext == "jpeg"@ {
            assert(SUPPORTED_IMAGES_TYPES[2]@ == ext);
        } else if ext == "webp"@ {
            assert(SUPPORTED_IMAGES_TYPES[3]@ == ext);
        } else if ext == "avif"@ {
            assert(SUPPORTED_IMAGES_TYPES[4]@ == ext);
        } else {
            assert(SUPPORTED_IMAGES_TYPES[5]@ == ext);
        }
    }
}

/// Whether `ext` is one of `SUPPORTED_IMAGES_TYPES` (compared exactly, case included).
pub fn supported_image_type(ext: &str) -> (r: bool)
    ensures
        r == is_supported_image_type(ext@),
{
    text::text_equals(ext, "png") || text::text_equals(ext, "jpg") || text::text_equals(ext, "jpeg")
        || text::text_equals(ext, "webp") || text::text_equals(ext, "avif")
        || text::text_equals(ext, "gif")
}

} // verus!
