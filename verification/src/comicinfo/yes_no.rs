//! `YesNo` values of `ComicInfo.xml`.
use vstd::prelude::*;
use crate::text::text_equals;

verus! {

/// Yes No Enum
#[derive(Debug, Clone, Copy, PartialEq, Eq, Structural, PartialOrd, Ord, Hash)]
pub enum YesNo {
    Yes,
    No,
    Unknown,
}

/// The text of a value: the name of its variant.
pub open spec fn yes_no_text(v: YesNo) -> Seq<char> {
    match v {
        YesNo::Yes => "Yes"@,
        YesNo::No => "No"@,
        YesNo::Unknown => "Unknown"@,
    }
}

/// The value a text stands for: `Yes` and `No` exactly; any other text is `Unknown`.
pub open spec fn yes_no_from_text(s: Seq<char>) -> YesNo {
    if s == "Yes"@ {
        YesNo::Yes
    } else if s == "No"@ {
        YesNo::No
    } else {
        YesNo::Unknown
    }
}

impl YesNo {
    /// The text of this value.
    pub fn to_string(&self) -> (r: String)
        ensures
            r@ == yes_no_text(*self),
    {
        match self {
            YesNo::Yes => "Yes".to_owned(),
            YesNo::No => "No".to_owned(),
            YesNo::Unknown => "Unknown".to_owned(),
        }
    }
}

impl<'a> From<&'a str> for YesNo {
    fn from(value: &'a str) -> (r: Self) {
        if text_equals(value, "Yes") {
            YesNo::Yes
        } else if text_equals(value, "No") {
            YesNo::No
        } else {
            YesNo::Unknown
        }
    }
}

impl<'a> vstd::std_specs::convert::FromSpecImpl<&'a str> for YesNo {
    open spec fn obeys_from_spec() -> bool {
        true
    }

    open spec fn from_spec(v: &'a str) -> Self {
        yes_no_from_text(v@)
    }
}

/// Reading back the text of a value gives the value.
pub proof fn lemma_yes_no_text_round_trip(v: YesNo)
    ensures
        yes_no_from_text(yes_no_text(v)) == v,
{
    reveal_strlit("Yes");
    reveal_strlit("No");
    reveal_strlit("Unknown");
    assert("Yes"@.len() == 3 && "No"@.len() == 2 && "Unknown"@.len() == 7);
}

} // verus!
