//! The endings of the pronouns that decline as `тот`, `этот`, `весь` and
//! `мой` do: two patterns, older and newer, that part in the instrumental
//! and the plural, each on a hard or a soft stem.

use vstd::prelude::*;

use crate::grammar::case::Case;
use crate::grammar::declension::attributive::Endings;
use crate::grammar::gender::{Animacy, Gender};
use crate::grammar::number::Number;
use crate::grammar::stem::Stem;

verus! {

/// The two pronominal patterns.
#[derive(Debug, Clone, Copy, PartialEq, Eq, Hash, PartialOrd, Ord, Structural)]
pub enum Pattern {
    /// `тот`, `весь`, `кто`, `что`: `-ем` in the instrumental, `-е` in the
    /// plural.
    Older,
    /// `этот`, `мой`, `сам`: `-им` in the instrumental, `-и` in the plural.
    Newer,
}

impl Pattern {
    /// The instrumental of the masculine and the neuter.
    #[verifier::allow_in_spec]
    pub fn instrumental(self) -> &'static str
        returns
            if self is Older { "ем" } else { "им" },
    {
        match self {
            Pattern::Older => "ем",
            Pattern::Newer => "им",
        }
    }
}

/// The masculine, whose nominative is the dictionary form itself.
pub open spec fn masculine_of(pattern: Pattern, shape: Stem) -> Endings {
    if shape is Soft {
        Endings {
            nominative: "",
            genitive: "его",
            dative: "ему",
            accusative: None,
            instrumental: pattern.instrumental(),
            prepositional: "ём",
        }
    } else {
        Endings {
            nominative: "",
            genitive: "ого",
            dative: "ому",
            accusative: None,
            instrumental: pattern.instrumental(),
            prepositional: "ом",
        }
    }
}

/// The neuter: the masculine's rows with `-о` or `-ё` in the nominative and
/// the accusative.
pub open spec fn neuter_of(pattern: Pattern, shape: Stem) -> Endings {
    let vowel = if shape is Soft { "ё" } else { "о" };
    Endings { nominative: vowel, accusative: Some(vowel), ..masculine_of(pattern, shape) }
}

/// The feminine.
pub open spec fn feminine_of(shape: Stem) -> Endings {
    if shape is Soft {
        Endings {
            nominative: "я",
            genitive: "ей",
            dative: "ей",
            accusative: Some("ю"),
            instrumental: "ей",
            prepositional: "ей",
        }
    } else {
        Endings {
            nominative: "а",
            genitive: "ой",
            dative: "ой",
            accusative: Some("у"),
            instrumental: "ой",
            prepositional: "ой",
        }
    }
}

/// The plural, by pattern.
pub open spec fn plural_of(pattern: Pattern) -> Endings {
    if pattern is Older {
        Endings {
            nominative: "е",
            genitive: "ех",
            dative: "ем",
            accusative: None,
            instrumental: "еми",
            prepositional: "ех",
        }
    } else {
        Endings {
            nominative: "и",
            genitive: "их",
            dative: "им",
            accusative: None,
            instrumental: "ими",
            prepositional: "их",
        }
    }
}

/// The rows of one gender or of the plural.
pub open spec fn table_of(pattern: Pattern, shape: Stem, gender: Gender, number: Number) -> Endings {
    if number is Plural {
        plural_of(pattern)
    } else if gender is Feminine {
        feminine_of(shape)
    } else if gender is Neuter {
        neuter_of(pattern, shape)
    } else {
        masculine_of(pattern, shape)
    }
}

/// The endings of a pattern on a stem, in one gender or in the plural.
pub fn table(pattern: Pattern, shape: Stem, gender: Gender, number: Number) -> (res: Endings)
    ensures
        res == table_of(pattern, shape, gender, number),
{
    match number {
        Number::Plural => plural(pattern),
        Number::Singular => match gender {
            Gender::Feminine => feminine(shape),
            Gender::Neuter => neuter(pattern, shape),
            _ => masculine(pattern, shape),
        },
    }
}

/// The masculine rows.
pub fn masculine(pattern: Pattern, shape: Stem) -> (res: Endings)
    ensures
        res == masculine_of(pattern, shape),
{
    match shape {
        Stem::Hard => Endings {
            nominative: "",
            genitive: "ого",
            dative: "ому",
            accusative: None,
            instrumental: pattern.instrumental(),
            prepositional: "ом",
        },
        Stem::Soft => Endings {
            nominative: "",
            genitive: "его",
            dative: "ему",
            accusative: None,
            instrumental: pattern.instrumental(),
            prepositional: "ём",
        },
    }
}

/// The neuter rows.
fn neuter(pattern: Pattern, shape: Stem) -> (res: Endings)
    ensures
        res == neuter_of(pattern, shape),
{
    let vowel = match shape {
        Stem::Hard => "о",
        Stem::Soft => "ё",
    };
    Endings { nominative: vowel, accusative: Some(vowel), ..masculine(pattern, shape) }
}

/// The feminine rows.
fn feminine(shape: Stem) -> (res: Endings)
    ensures
        res == feminine_of(shape),
{
    match shape {
        Stem::Hard => Endings {
            nominative: "а",
            genitive: "ой",
            dative: "ой",
            accusative: Some("у"),
            instrumental: "ой",
            prepositional: "ой",
        },
        Stem::Soft => Endings {
            nominative: "я",
            genitive: "ей",
            dative: "ей",
            accusative: Some("ю"),
            instrumental: "ей",
            prepositional: "ей",
        },
    }
}

/// The plural rows.
fn plural(pattern: Pattern) -> (res: Endings)
    ensures
        res == plural_of(pattern),
{
    match pattern {
        Pattern::Older => Endings {
            nominative: "е",
            genitive: "ех",
            dative: "ем",
            accusative: None,
            instrumental: "еми",
            prepositional: "ех",
        },
        Pattern::Newer => Endings {
            nominative: "и",
            genitive: "их",
            dative: "им",
            accusative: None,
            instrumental: "ими",
            prepositional: "их",
        },
    }
}

/// The ending of one cell.
pub fn of(pattern: Pattern, shape: Stem, gender: Gender, number: Number, case: Case, animacy: Animacy) -> (res:
    &'static str)
    ensures
        res == table_of(pattern, shape, gender, number).of(case, animacy),
{
    table(pattern, shape, gender, number).of(case, animacy)
}

} // verus!
