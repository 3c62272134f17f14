//! Writing `cbz` archives.
use vstd::prelude::*;

verus! {

/// The image format in which pages are stored.
#[derive(Debug, Clone, Copy, PartialEq, Eq, Structural, PartialOrd, Ord, Hash)]
pub enum CbzWriterImageFormat {
    Png,
    Jpeg,
}

impl Default for CbzWriterImageFormat {
    fn default() -> (r: Self)
        ensures
            r == CbzWriterImageFormat::Png,
    {
        CbzWriterImageFormat::Png
    }
}

impl CbzWriterImageFormat {
    /// The file extension of pages in this format.
    pub fn extension(&self) -> (r: &'static str)
        ensures
            r@ == (match *self {
                CbzWriterImageFormat::Png => "png"@,
                CbzWriterImageFormat::Jpeg => "jpg"@,
            }),
    {
        match self {
            CbzWriterImageFormat::Png => "png",
            CbzWriterImageFormat::Jpeg => "jpg",
        }
    }

    /// The file extension of a page: `gif` for a GIF image, which is stored as
    /// it came; else that of this format.
    pub fn page_extension(&self, is_gif: bool) -> (r: &'static str)
        ensures
            is_gif ==> r@ == "gif"@,
            !is_gif ==> r@ == (match *self {
                CbzWriterImageFormat::Png => "png"@,
                CbzWriterImageFormat::Jpeg => "jpg"@,
            }),
    {
        if is_gif {
            "gif"
        } else {
            self.extension()
        }
    }
}

} // verus!
