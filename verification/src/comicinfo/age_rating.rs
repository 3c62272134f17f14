//! `AgeRating` values of `ComicInfo.xml`.
use vstd::prelude::*;
use crate::text::text_equals;

verus! {

#[derive(Debug, Clone, Copy, PartialEq, Eq, Structural, PartialOrd, Ord, Hash)]
pub enum AgeRating {
    AdultsOnly18Plus,
    EarlyChildhood,
    Everyone,
    Everyone18Plus,
    G,
    KidsToAdults,
    M,
    MA15Plus,
    Mature17Plus,
    PG,
    R18Plus,
    RatingPending,
    Teen,
    X18Plus,
    Unknown,
}

/// The text of a value, as the schema spells it.
pub open spec fn age_rating_text(v: AgeRating) -> Seq<char> {
    match v {
        AgeRating::AdultsOnly18Plus => "Adults Only 18+"@,
        AgeRating::EarlyChildhood => "Early Childhood"@,
        AgeRating::Everyone => "Everyone"@,
        AgeRating::Everyone18Plus => "Everyone 10+"@,
        AgeRating::G => "G"@,
        AgeRating::KidsToAdults => "Kids to Adults"@,
        AgeRating::M => "M"@,
        AgeRating::MA15Plus => "MA15+"@,
        AgeRating::Mature17Plus => "Mature 17+"@,
        AgeRating::PG => "PG"@,
        AgeRating::R18Plus => "R18+"@,
        AgeRating::RatingPending => "Rating Pending"@,
        AgeRating::Teen => "Teen"@,
        AgeRating::X18Plus => "X18+"@,
        AgeRating::Unknown => "Unknown"@,
    }
}

/// The value whose text is exactly `s`; any other text is `Unknown`.
pub open spec fn age_rating_from_text(s: Seq<char>) -> AgeRating {
    if s == "Adults Only 18+"@ {
        AgeRating::AdultsOnly18Plus
    } else if s == "Early Childhood"@ {
        AgeRating::EarlyChildhood
    } else if s == "Everyone"@ {
        AgeRating::Everyone
    } else if s == "Everyone 10+"@ {
        AgeRating::Everyone18Plus
    } else if s == "G"@ {
        AgeRating::G
    } else if s == "Kids to Adults"@ {
        AgeRating::KidsToAdults
    } else if s == "M"@ {
        AgeRating::M
    } else if s == "MA15+"@ {
        AgeRating::MA15Plus
    } else if s == "Mature 17+"@ {
        AgeRating::Mature17Plus
    } else if s == "PG"@ {
        AgeRating::PG
    } else if s == "R18+"@ {
        AgeRating::R18Plus
    } else if s == "Rating Pending"@ {
        AgeRating::RatingPending
    } else if s == "Teen"@ {
        AgeRating::Teen
    } else if s == "X18+"@ {
        AgeRating::X18Plus
    } else {
        AgeRating::Unknown
    }
}

impl Default for AgeRating {
    fn default() -> (r: Self)
        ensures
            r == AgeRating::Unknown,
    {
        AgeRating::Unknown
    }
}

impl AgeRating {
    /// The text of this value.
    pub fn to_string(&self) -> (r: String)
        ensures
            r@ == age_rating_text(*self),
    {
        match self {
            AgeRating::AdultsOnly18Plus => "Adults Only 18+".to_owned(),
            AgeRating::EarlyChildhood => "Early Childhood".to_owned(),
            AgeRating::Everyone => "Everyone".to_owned(),
            AgeRating::Everyone18Plus => "Everyone 10+".to_owned(),
            AgeRating::G => "G".to_owned(),
            AgeRating::KidsToAdults => "Kids to Adults".to_owned(),
            AgeRating::M => "M".to_owned(),
            AgeRating::MA15Plus => "MA15+".to_owned(),
            AgeRating::Mature17Plus => "Mature 17+".to_owned(),
            AgeRating::PG => "PG".to_owned(),
            AgeRating::R18Plus => "R18+".to_owned(),
            AgeRating::RatingPending => "Rating Pending".to_owned(),
            AgeRating::Teen => "Teen".to_owned(),
            AgeRating::X18Plus => "X18+".to_owned(),
            AgeRating::Unknown => "Unknown".to_owned(),
        }
    }
}

impl<'a> From<&'a str> for AgeRating {
    fn from(value: &'a str) -> (r: Self) {
        if text_equals(value, "Adults Only 18+") {
            AgeRating::AdultsOnly18Plus
        } else if text_equals(value, "Early Childhood") {
            AgeRating::EarlyChildhood
        } else if text_equals(value, "Everyone") {
            AgeRating::Everyone
        } else if text_equals(value, "Everyone 10+") {
            AgeRating::Everyone18Plus
        } else if text_equals(value, "G") {
            AgeRating::G
        } else if text_equals(value, "Kids to Adults") {
            AgeRating::KidsToAdults
        } else if text_equals(value, "M") {
            AgeRating::M
        } else if text_equals(value, "MA15+") {
            AgeRating::MA15Plus
        } else if text_equals(value, "Mature 17+") {
            AgeRating::Mature17Plus
        } else if text_equals(value, "PG") {
            AgeRating::PG
        } else if text_equals(value, "R18+") {
            AgeRating::R18Plus
        } else if text_equals(value, "Rating Pending") {
            AgeRating::RatingPending
        } else if text_equals(value, "Teen") {
            AgeRating::Teen
        } else if text_equals(value, "X18+") {
            AgeRating::X18Plus
        } else {
            AgeRating::Unknown
        }
    }
}

impl<'a> vstd::std_specs::convert::FromSpecImpl<&'a str> for AgeRating {
    open spec fn obeys_from_spec() -> bool {
        true
    }

    open spec fn from_spec(v: &'a str) -> Self {
        age_rating_from_text(v@)
    }
}

/// Reading back the text of a value gives the value.
pub proof fn lemma_age_rating_text_round_trip(v: AgeRating)
    ensures
        age_rating_from_text(age_rating_text(v)) == v,
{
    reveal_strlit("Adults Only 18+");
    reveal_strlit("Early Childhood");
    reveal_strlit("Everyone");
    reveal_strlit("Everyone 10+");
    reveal_strlit("G");
    reveal_strlit("Kids to Adults");
    reveal_strlit("M");
    reveal_strlit("MA15+");
    reveal_strlit("Mature 17+");
    reveal_strlit("PG");
    reveal_strlit("R18+");
    reveal_strlit("Rating Pending");
    reveal_strlit("Teen");
    reveal_strlit("X18+");
    reveal_strlit("Unknown");
    let t = age_rating_text(v);
    match v {
        AgeRating::AdultsOnly18Plus => {
        },
        AgeRating::EarlyChildhood => {
            assert(t[0] != "Adults Only 18+"@[0]);
        },
        AgeRating::Everyone => {
            assert(t.len() != "Adults Only 18+"@.len());
            assert(t.len() != "Early Childhood"@.len());
        },
        AgeRating::Everyone18Plus => {
            assert(t.len() != "Adults Only 18+"@.len());
            assert(t.len() != "Early Childhood"@.len());
            assert(t.len() != "Everyone"@.len());
        },
        AgeRating::G => {
            assert(t.len() != "Adults Only 18+"@.len());
            assert(t.len() != "Early Childhood"@.len());
            assert(t.len() != "Everyone"@.len());
            assert(t.len() != "Everyone 10+"@.len());
        },
        AgeRating::KidsToAdults => {
            assert(t.len() != "Adults Only 18+"@.len());
            assert(t.len() != "Early Childhood"@.len());
            assert(t.len() != "Everyone"@.len());
            assert(t.len() != "Everyone 10+"@.len());
            assert(t.len() != "G"@.len());
        },
        AgeRating::M => {
            assert(t.len() != "Adults Only 18+"@.len());
            assert(t.len() != "Early Childhood"@.len());
            assert(t.len() != "Everyone"@.len());
            assert(t.len() != "Everyone 10+"@.len());
            assert(t[0] != "G"@[0]);
            assert(t.len() != "Kids to Adults"@.len());
        },
        AgeRating::MA15Plus => {
            assert(t.len() != "Adults Only 18+"@.len());
            assert(t.len() != "Early Childhood"@.len());
            assert(t.len() != "Everyone"@.len());
            assert(t.len() != "Everyone 10+"@.len());
            assert(t.len() != "G"@.len());
            assert(t.len() != "Kids to Adults"@.len());
            assert(t.len() != "M"@.len());
        },
        AgeRating::Mature17Plus => {
            assert(t.len() != "Adults Only 18+"@.len());
            assert(t.len() != "Early Childhood"@.len());
            assert(t.len() != "Everyone"@.len());
            assert(t.len() != "Everyone 10+"@.len());
            assert(t.len() != "G"@.len());
            assert(t.len() != "Kids to Adults"@.len());
            assert(t.len() != "M"@.len());
            assert(t.len() != "MA15+"@.len());
        },
        AgeRating::PG => {
            assert(t.len() != "Adults Only 18+"@.len());
            assert(t.len() != "Early Childhood"@.len());
            assert(t.len() != "Everyone"@.len());
            assert(t.len() != "Everyone 10+"@.len());
            assert(t.len() != "G"@.len());
            assert(t.len() != "Kids to Adults"@.len());
            assert(t.len() != "M"@.len());
            assert(t.len() != "MA15+"@.len());
            assert(t.len() != "Mature 17+"@.len());
        },
        AgeRating::R18Plus => {
            assert(t.len() != "Adults Only 18+"@.len());
            assert(t.len() != "Early Childhood"@.len());
            assert(t.len() != "Everyone"@.len());
            assert(t.len() != "Everyone 10+"@.len());
            assert(t.len() != "G"@.len());
            assert(t.len() != "Kids to Adults"@.len());
            assert(t.len() != "M"@.len());
            assert(t.len() != "MA15+"@.len());
            assert(t.len() != "Mature 17+"@.len());
            assert(t.len() != "PG"@.len());
        },
        AgeRating::RatingPending => {
            assert(t.len() != "Adults Only 18+"@.len());
            assert(t.len() != "Early Childhood"@.len());
            assert(t.len() != "Everyone"@.len());
            assert(t.len() != "Everyone 10+"@.len());
            assert(t.len() != "G"@.len());
            assert(t[0] != "Kids to Adults"@[0]);
            assert(t.len() != "M"@.len());
            assert(t.len() != "MA15+"@.len());
            assert(t.len() != "Mature 17+"@.len());
            assert(t.len() != "PG"@.len());
            assert(t.len() != "R18+"@.len());
        },
        AgeRating::Teen => {
            assert(t.len() != "Adults Only 18+"@.len());
            assert(t.len() != "Early Childhood"@.len());
            assert(t.len() != "Everyone"@.len());
            assert(t.len() != "Everyone 10+"@.len());
            assert(t.len() != "G"@.len());
            assert(t.len() != "Kids to Adults"@.len());
            assert(t.len() != "M"@.len());
            assert(t.len() != "MA15+"@.len());
            assert(t.len() != "Mature 17+"@.len());
            assert(t.len() != "PG"@.len());
            assert(t[0] != "R18+"@[0]);
            assert(t.len() != "Rating Pending"@.len());
        },
        AgeRating::X18Plus => {
            assert(t.len() != "Adults Only 18+"@.len());
            assert(t.len() != "Early Childhood"@.len());
            assert(t.len() != "Everyone"@.len());
            assert(t.len() != "Everyone 10+"@.len());
            assert(t.len() != "G"@.len());
            assert(t.len() != "Kids to Adults"@.len());
            assert(t.len() != "M"@.len());
            assert(t.len() != "MA15+"@.len());
            assert(t.len() != "Mature 17+"@.len());
            assert(t.len() != "PG"@.len());
            assert(t[0] != "R18+"@[0]);
            assert(t.len() != "Rating Pending"@.len());
            assert(t[0] != "Teen"@[0]);
        },
        AgeRating::Unknown => {
            assert(t.len() != "Adults Only 18+"@.len());
            assert(t.len() != "Early Childhood"@.len());
            assert(t.len() != "Everyone"@.len());
            assert(t.len() != "Everyone 10+"@.len());
            assert(t.len() != "G"@.len());
            assert(t.len() != "Kids to Adults"@.len());
            assert(t.len() != "M"@.len());
            assert(t.len() != "MA15+"@.len());
            assert(t.len() != "Mature 17+"@.len());
            assert(t.len() != "PG"@.len());
            assert(t.len() != "R18+"@.len());
            assert(t.len() != "Rating Pending"@.len());
            assert(t.len() != "Teen"@.len());
            assert(t.len() != "X18+"@.len());
        },
    }
}

} // verus!
