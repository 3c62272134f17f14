//! `ComicPageType` values of `ComicInfo.xml`: the kind of a page.
use vstd::prelude::*;
use crate::comicinfo::from_str_error;
use crate::text::{all_ascii, ascii_lowercase, text_equals, to_lowercase, unicode_lowercase};

verus! {

#[derive(Debug, Clone, Copy, PartialEq, Eq, Structural, PartialOrd, Ord, Hash)]
pub enum ComicPageType {
    FrontCover,
    InnerCover,
    Roundup,
    Story,
    Advertisement,
    Editorial,
    Letters,
    Preview,
    BackCover,
    Other,
    Deleted,
}

/// The text of a value: the name of its variant.
pub open spec fn comic_page_type_text(v: ComicPageType) -> Seq<char> {
    match v {
        ComicPageType::FrontCover => "FrontCover"@,
        ComicPageType::InnerCover => "InnerCover"@,
        ComicPageType::Roundup => "Roundup"@,
        ComicPageType::Story => "Story"@,
        ComicPageType::Advertisement => "Advertisement"@,
        ComicPageType::Editorial => "Editorial"@,
        ComicPageType::Letters => "Letters"@,
        ComicPageType::Preview => "Preview"@,
        ComicPageType::BackCover => "BackCover"@,
        ComicPageType::Other => "Other"@,
        ComicPageType::Deleted => "Deleted"@,
    }
}

/// The value whose variant name, in lowercase, is `lower`.
pub open spec fn comic_page_type_from_lowercase(lower: Seq<char>) -> Option<ComicPageType> {
    if lower == "frontcover"@ {
        Some(ComicPageType::FrontCover)
    } else if lower == "innercover"@ {
        Some(ComicPageType::InnerCover)
    } else if lower == "roundup"@ {
        Some(ComicPageType::Roundup)
    } else if lower == "story"@ {
        Some(ComicPageType::Story)
    } else if lower == "advertisement"@ {
        Some(ComicPageType::Advertisement)
    } else if lower == "editorial"@ {
        Some(ComicPageType::Editorial)
    } else if lower == "letters"@ {
        Some(ComicPageType::Letters)
    } else if lower == "preview"@ {
        Some(ComicPageType::Preview)
    } else if lower == "backcover"@ {
        Some(ComicPageType::BackCover)
    } else if lower == "other"@ {
        Some(ComicPageType::Other)
    } else if lower == "deleted"@ {
        Some(ComicPageType::Deleted)
    } else {
        None
    }
}

/// `r` is what parsing gives when the lowercase text names `expected` (or nothing).
pub open spec fn comic_page_type_parse_result(
    r: Result<ComicPageType, derive_more::FromStrError>,
    expected: Option<ComicPageType>,
) -> bool {
    match expected {
        Some(v) => r matches Ok(x) && x == v,
        None => r is Err,
    }
}

impl Default for ComicPageType {
    fn default() -> (r: Self)
        ensures
            r == ComicPageType::Story,
    {
        ComicPageType::Story
    }
}

impl ComicPageType {
    /// The text of this value.
    pub fn to_string(&self) -> (r: String)
        ensures
            r@ == comic_page_type_text(*self),
    {
        match self {
            ComicPageType::FrontCover => "FrontCover".to_owned(),
            ComicPageType::InnerCover => "InnerCover".to_owned(),
            ComicPageType::Roundup => "Roundup".to_owned(),
            ComicPageType::Story => "Story".to_owned(),
            ComicPageType::Advertisement => "Advertisement".to_owned(),
            ComicPageType::Editorial => "Editorial".to_owned(),
            ComicPageType::Letters => "Letters".to_owned(),
            ComicPageType::Preview => "Preview".to_owned(),
            ComicPageType::BackCover => "BackCover".to_owned(),
            ComicPageType::Other => "Other".to_owned(),
            ComicPageType::Deleted => "Deleted".to_owned(),
        }
    }

    /// Parses a variant name, ignoring case (the text is compared in Unicode
    /// lowercase); any other text is an error.
    pub fn from_str(s: &str) -> (r: Result<ComicPageType, derive_more::FromStrError>)
        ensures
            comic_page_type_parse_result(r, comic_page_type_from_lowercase(unicode_lowercase(s@))),
            all_ascii(s@) ==> comic_page_type_parse_result(
                r,
                comic_page_type_from_lowercase(ascii_lowercase(s@)),
            ),
    {
        let lower = to_lowercase(s);
        let l = lower.as_str();
        if text_equals(l, "frontcover") {
            Ok(ComicPageType::FrontCover)
        } else if text_equals(l, "innercover") {
            Ok(ComicPageType::InnerCover)
        } else if text_equals(l, "roundup") {
            Ok(ComicPageType::Roundup)
        } else if text_equals(l, "story") {
            Ok(ComicPageType::Story)
        } else if text_equals(l, "advertisement") {
            Ok(ComicPageType::Advertisement)
        } else if text_equals(l, "editorial") {
            Ok(ComicPageType::Editorial)
        } else if text_equals(l, "letters") {
            Ok(ComicPageType::Letters)
        } else if text_equals(l, "preview") {
            Ok(ComicPageType::Preview)
        } else if text_equals(l, "backcover") {
            Ok(ComicPageType::BackCover)
        } else if text_equals(l, "other") {
            Ok(ComicPageType::Other)
        } else if text_equals(l, "deleted") {
            Ok(ComicPageType::Deleted)
        } else {
            Err(from_str_error("ComicPageType"))
        }
    }
}

impl core::str::FromStr for ComicPageType {
    type Err = derive_more::FromStrError;

    fn from_str(s: &str) -> (r: Result<ComicPageType, derive_more::FromStrError>)
        ensures
            comic_page_type_parse_result(r, comic_page_type_from_lowercase(unicode_lowercase(s@))),
            all_ascii(s@) ==> comic_page_type_parse_result(
                r,
                comic_page_type_from_lowercase(ascii_lowercase(s@)),
            ),
    {
        ComicPageType::from_str(s)
    }
}

/// The text of a value is ASCII, and parsing it gives the value back.
pub proof fn lemma_comic_page_type_text_round_trip(v: ComicPageType)
    ensures
        all_ascii(comic_page_type_text(v)),
        comic_page_type_from_lowercase(ascii_lowercase(comic_page_type_text(v))) == Some(v),
{
    reveal_strlit("FrontCover");
    reveal_strlit("frontcover");
    reveal_strlit("InnerCover");
    reveal_strlit("innercover");
    reveal_strlit("Roundup");
    reveal_strlit("roundup");
    reveal_strlit("Story");
    reveal_strlit("story");
    reveal_strlit("Advertisement");
    reveal_strlit("advertisement");
    reveal_strlit("Editorial");
    reveal_strlit("editorial");
    reveal_strlit("Letters");
    reveal_strlit("letters");
    reveal_strlit("Preview");
    reveal_strlit("preview");
    reveal_strlit("BackCover");
    reveal_strlit("backcover");
    reveal_strlit("Other");
    reveal_strlit("other");
    reveal_strlit("Deleted");
    reveal_strlit("deleted");
    let l = ascii_lowercase(comic_page_type_text(v));
    match v {
        ComicPageType::FrontCover => {
            assert(l =~= "frontcover"@);
        },
        ComicPageType::InnerCover => {
            assert(l =~= "innercover"@);
            assert(l[0] != "frontcover"@[0] || l[1] != "frontcover"@[1]);
        },
        ComicPageType::Roundup => {
            assert(l =~= "roundup"@);
        },
        ComicPageType::Story => {
            assert(l =~= "story"@);
        },
        ComicPageType::Advertisement => {
            assert(l =~= "advertisement"@);
        },
        ComicPageType::Editorial => {
            assert(l =~= "editorial"@);
        },
        ComicPageType::Letters => {
            assert(l =~= "letters"@);
            assert(l[0] != "roundup"@[0] || l[1] != "roundup"@[1]);
        },
        ComicPageType::Preview => {
            assert(l =~= "preview"@);
            assert(l[0] != "roundup"@[0] || l[1] != "roundup"@[1]);
            assert(l[0] != "letters"@[0] || l[1] != "letters"@[1]);
        },
        ComicPageType::BackCover => {
            assert(l =~= "backcover"@);
            assert(l[0] != "editorial"@[0] || l[1] != "editorial"@[1]);
        },
        ComicPageType::Other => {
            assert(l =~= "other"@);
            assert(l[0] != "story"@[0] || l[1] != "story"@[1]);
        },
        ComicPageType::Deleted => {
            assert(l =~= "deleted"@);
            assert(l[0] != "roundup"@[0] || l[1] != "roundup"@[1]);
            assert(l[0] != "letters"@[0] || l[1] != "letters"@[1]);
            assert(l[0] != "preview"@[0] || l[1] != "preview"@[1]);
        },
    }
}

} // verus!
