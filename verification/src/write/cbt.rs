//! Writing `cbt` archives.
use vstd::prelude::*;

verus! {

/// The image format in which pages are stored.
#[derive(Debug, Clone, Copy, PartialEq, Eq, Structural, PartialOrd, Ord, Hash)]
pub enum CbtWriterImageFormat {
    Png,
    Jpeg,
}

impl Default for CbtWriterImageFormat {
    fn default() -> (r: Self)
        ensures
            r == CbtWriterImageFormat::Png,
    {
        CbtWriterImageFormat::Png
    }
}

impl CbtWriterImageFormat {
    /// The file extension of pages in this format.
    pub fn extension(&self) -> (r: &'static str)
        ensures
            r@ == (match *self {
                CbtWriterImageFormat::Png => "png"@,
                CbtWriterImageFormat::Jpeg => "jpg"@,
            }),
    {
        match self {
            CbtWriterImageFormat::Png => "png",
            CbtWriterImageFormat::Jpeg => "jpg",
        }
    }

    /// The file extension of a page: `gif` for a GIF image, which is stored as
    /// it came; else that of this format.
    pub fn page_extension(&self, is_gif: bool) -> (r: &'static str)
        ensures
            is_gif ==> r@ == "gif"@,
            !is_gif ==> r@ == (match *self {
                CbtWriterImageFormat::Png => "png"@,
                CbtWriterImageFormat::Jpeg => "jpg"@,
            }),
    {
        if is_gif {
            "gif"
        } else {
            self.extension()
        }
    }
}

} // verus!
