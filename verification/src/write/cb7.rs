//! Writing `cb7` archives.
use vstd::prelude::*;

verus! {

/// The image format in which pages are stored.
#[derive(Debug, Clone, Copy, PartialEq, Eq, Structural, PartialOrd, Ord, Hash)]
pub enum Cb7WriterImageFormat {
    Png,
    Jpeg,
}

impl Default for Cb7WriterImageFormat {
    fn default() -> (r: Self)
        ensures
            r == Cb7WriterImageFormat::Png,
    {
        Cb7WriterImageFormat::Png
    }
}

impl Cb7WriterImageFormat {
    /// The file extension of pages in this format.
    pub fn extension(&self) -> (r: &'static str)
        ensures
            r@ == (match *self {
                Cb7WriterImageFormat::Png => "png"@,
                Cb7WriterImageFormat::Jpeg => "jpg"@,
            }),
    {
        match self {
            Cb7WriterImageFormat::Png => "png",
            Cb7WriterImageFormat::Jpeg => "jpg",
        }
    }

    /// The file extension of a page: `gif` for a GIF image, which is stored as
    /// it came; else that of this format.
    pub fn page_extension(&self, is_gif: bool) -> (r: &'static str)
        ensures
            is_gif ==> r@ == "gif"@,
            !is_gif ==> r@ == (match *self {
                Cb7WriterImageFormat::Png => "png"@,
                Cb7WriterImageFormat::Jpeg => "jpg"@,
            }),
    {
        if is_gif {
            "gif"
        } else {
            self.extension()
        }
    }
}

} // verus!
