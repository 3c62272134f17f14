//! `Manga` values of `ComicInfo.xml`.
use vstd::prelude::*;
use crate::comicinfo::from_str_error;
use crate::text::{all_ascii, ascii_lowercase, text_equals, to_lowercase, unicode_lowercase};

verus! {

#[derive(Debug, Clone, Copy, PartialEq, Eq, Structural, PartialOrd, Ord, Hash)]
pub enum Manga {
    Yes,
    YesAndRightToLeft,
    No,
    Unknown,
}

/// The text of a value: the name of its variant.
pub open spec fn manga_text(v: Manga) -> Seq<char> {
    match v {
        Manga::Yes => "Yes"@,
        Manga::YesAndRightToLeft => "YesAndRightToLeft"@,
        Manga::No => "No"@,
        Manga::Unknown => "Unknown"@,
    }
}

/// The value whose variant name, in lowercase, is `lower`.
pub open spec fn manga_from_lowercase(lower: Seq<char>) -> Option<Manga> {
    if lower == "yes"@ {
        Some(Manga::Yes)
    } else if lower == "yesandrighttoleft"@ {
        Some(Manga::YesAndRightToLeft)
    } else if lower == "no"@ {
        Some(Manga::No)
    } else if lower == "unknown"@ {
        Some(Manga::Unknown)
    } else {
        None
    }
}

/// `r` is what parsing gives when the lowercase text names `expected` (or nothing).
pub open spec fn manga_parse_result(r: Result<Manga, derive_more::FromStrError>, expected: Option<Manga>) -> bool {
    match expected {
        Some(v) => r matches Ok(x) && x == v,
        None => r is Err,
    }
}

impl Manga {
    /// The text of this value.
    pub fn to_string(&self) -> (r: String)
        ensures
            r@ == manga_text(*self),
    {
        match self {
            Manga::Yes => "Yes".to_owned(),
            Manga::YesAndRightToLeft => "YesAndRightToLeft".to_owned(),
            Manga::No => "No".to_owned(),
            Manga::Unknown => "Unknown".to_owned(),
        }
    }

    /// Parses a variant name, ignoring case (the text is compared in Unicode
    /// lowercase); any other text is an error.
    pub fn from_str(s: &str) -> (r: Result<Manga, derive_more::FromStrError>)
        ensures
            manga_parse_result(r, manga_from_lowercase(unicode_lowercase(s@))),
            all_ascii(s@) ==> manga_parse_result(r, manga_from_lowercase(ascii_lowercase(s@))),
    {
        let lower = to_lowercase(s);
        let l = lower.as_str();
        if text_equals(l, "yes") {
            Ok(Manga::Yes)
        } else if text_equals(l, "yesandrighttoleft") {
            Ok(Manga::YesAndRightToLeft)
        } else if text_equals(l, "no") {
            Ok(Manga::No)
        } else if text_equals(l, "unknown") {
            Ok(Manga::Unknown)
        } else {
            Err(from_str_error("Manga"))
        }
    }
}

impl core::str::FromStr for Manga {
    type Err = derive_more::FromStrError;

    fn from_str(s: &str) -> (r: Result<Manga, derive_more::FromStrError>)
        ensures
            manga_parse_result(r, manga_from_lowercase(unicode_lowercase(s@))),
            all_ascii(s@) ==> manga_parse_result(r, manga_from_lowercase(ascii_lowercase(s@))),
    {
        Manga::from_str(s)
    }
}

/// The text of a value is ASCII, and parsing it gives the value back.
pub proof fn lemma_manga_text_round_trip(v: Manga)
    ensures
        all_ascii(manga_text(v)),
        manga_from_lowercase(ascii_lowercase(manga_text(v))) == Some(v),
{
    reveal_strlit("Yes");
    reveal_strlit("YesAndRightToLeft");
    reveal_strlit("No");
    reveal_strlit("Unknown");
    reveal_strlit("yes");
    reveal_strlit("yesandrighttoleft");
    reveal_strlit("no");
    reveal_strlit("unknown");
    let t = manga_text(v);
    let l = ascii_lowercase(t);
    match v {
        Manga::Yes => {
            assert(l =~= "yes"@);
        },
        Manga::YesAndRightToLeft => {
            assert(l =~= "yesandrighttoleft"@);
            assert(l != "yes"@);
        },
        Manga::No => {
            assert(l =~= "no"@);
            assert(l != "yes"@);
            assert(l != "yesandrighttoleft"@);
        },
        Manga::Unknown => {
            assert(l =~= "unknown"@);
            assert(l != "yes"@);
            assert(l != "yesandrighttoleft"@);
            assert(l != "no"@);
        },
    }
}

} // verus!
