//! The endings each declension puts on a noun.
//!
//! The accusative is absent from most rows on purpose: outside the first
//! declension Russian has no accusative ending of its own, it repeats the
//! nominative for a thing and the genitive for a living being.

use vstd::prelude::*;

use super::attributive;
use super::Declension;
use crate::grammar::case::Case;
use crate::grammar::gender::{Animacy, Gender};
use crate::grammar::number::Number;
use crate::grammar::stem::Stem;

verus! {

/// The endings of one number of one paradigm.
#[derive(Debug, Clone, Copy, PartialEq, Eq)]
pub struct Endings {
    /// Nominative.
    pub nominative: &'static str,
    /// Genitive.
    pub genitive: &'static str,
    /// Dative.
    pub dative: &'static str,
    /// Accusative, when the paradigm states one of its own.
    pub accusative: Option<&'static str>,
    /// Instrumental.
    pub instrumental: &'static str,
    /// Prepositional.
    pub prepositional: &'static str,
}

impl Endings {
    /// The ending this paradigm puts on a noun in the case asked for. The
    /// partitive reads the genitive's row, the locative the prepositional's,
    /// the vocative the nominative's, and an accusative without a row of its
    /// own the genitive's for a living being and the nominative's for a
    /// thing.
    #[verifier::allow_in_spec]
    pub fn of(&self, case: Case, animacy: Animacy) -> &'static str
        returns
            match case {
                Case::Nominative => self.nominative,
                Case::Vocative => self.nominative,
                Case::Genitive => self.genitive,
                Case::Partitive => self.genitive,
                Case::Dative => self.dative,
                Case::Instrumental => self.instrumental,
                Case::Prepositional => self.prepositional,
                Case::Locative => self.prepositional,
                Case::Accusative => match self.accusative {
                    Some(held) => held,
                    None => match animacy {
                        Animacy::Animate => self.genitive,
                        Animacy::Inanimate => self.nominative,
                    },
                },
            },
    {
        match case {
            Case::Nominative => self.nominative,
            Case::Vocative => self.nominative,
            Case::Genitive => self.genitive,
            Case::Partitive => self.genitive,
            Case::Dative => self.dative,
            Case::Instrumental => self.instrumental,
            Case::Prepositional => self.prepositional,
            Case::Locative => self.prepositional,
            Case::Accusative => match self.accusative {
                Some(held) => held,
                None => match animacy {
                    Animacy::Animate => self.genitive,
                    Animacy::Inanimate => self.nominative,
                },
            },
        }
    }
}

/// A plural row: a genitive and a nominative of its own, and the dative,
/// instrumental and prepositional of its stem.
pub open spec fn plural_of(stem: Stem, genitive: &'static str, nominative: &'static str) -> Endings {
    Endings {
        nominative,
        genitive,
        dative: if stem is Soft { "ям" } else { "ам" },
        accusative: None,
        instrumental: if stem is Soft { "ями" } else { "ами" },
        prepositional: if stem is Soft { "ях" } else { "ах" },
    }
}

/// The first declension in the singular: `вода`, `земля`.
pub open spec fn first_singular_of(stem: Stem) -> Endings {
    if stem is Soft {
        Endings {
            nominative: "я",
            genitive: "и",
            dative: "е",
            accusative: Some("ю"),
            instrumental: "ей",
            prepositional: "е",
        }
    } else {
        Endings {
            nominative: "а",
            genitive: "ы",
            dative: "е",
            accusative: Some("у"),
            instrumental: "ой",
            prepositional: "е",
        }
    }
}

/// The second declension in the singular, which tells the masculine from the
/// neuter and has no row for any other gender.
pub open spec fn second_singular_of(stem: Stem, gender: Gender) -> Option<Endings> {
    if gender is Masculine {
        if stem is Soft {
            Some(
                Endings {
                    nominative: "ь",
                    genitive: "я",
                    dative: "ю",
                    accusative: None,
                    instrumental: "ем",
                    prepositional: "е",
                },
            )
        } else {
            Some(
                Endings {
                    nominative: "",
                    genitive: "а",
                    dative: "у",
                    accusative: None,
                    instrumental: "ом",
                    prepositional: "е",
                },
            )
        }
    } else if gender is Neuter {
        if stem is Soft {
            Some(
                Endings {
                    nominative: "е",
                    genitive: "я",
                    dative: "ю",
                    accusative: Some("е"),
                    instrumental: "ем",
                    prepositional: "е",
                },
            )
        } else {
            Some(
                Endings {
                    nominative: "о",
                    genitive: "а",
                    dative: "у",
                    accusative: Some("о"),
                    instrumental: "ом",
                    prepositional: "е",
                },
            )
        }
    } else {
        None
    }
}

/// The second declension in the plural.
pub open spec fn second_plural_of(stem: Stem, gender: Gender) -> Endings {
    if gender is Neuter {
        if stem is Soft {
            plural_of(Stem::Soft, "ей", "я")
        } else {
            plural_of(Stem::Hard, "", "а")
        }
    } else if stem is Soft {
        plural_of(Stem::Soft, "ей", "и")
    } else {
        plural_of(Stem::Hard, "ов", "ы")
    }
}

/// The third declension in the singular: `ночь`.
pub open spec fn third_singular_of() -> Endings {
    Endings {
        nominative: "ь",
        genitive: "и",
        dative: "и",
        accusative: Some("ь"),
        instrumental: "ью",
        prepositional: "и",
    }
}

/// The mixed nouns in the singular: the third declension's endings but in
/// the instrumental, and the nominative in `-я`: `время`, `времени`,
/// `временем`.
pub open spec fn mixed_singular_of() -> Endings {
    Endings {
        nominative: "я",
        genitive: "и",
        dative: "и",
        accusative: Some("я"),
        instrumental: "ем",
        prepositional: "и",
    }
}

/// A noun declined as an adjective takes the agreeing table.
pub open spec fn adjectival_of(stem: Stem, gender: Gender, number: Number) -> Endings {
    let held = attributive::table_of(stem, gender, number, false);
    Endings {
        nominative: held.nominative,
        genitive: held.genitive,
        dative: held.dative,
        accusative: held.accusative,
        instrumental: held.instrumental,
        prepositional: held.prepositional,
    }
}

/// The endings of one number of one paradigm.
pub open spec fn table_of(declension: Declension, stem: Stem, gender: Gender, number: Number) -> Option<
    Endings,
> {
    match declension {
        Declension::First => if number is Singular {
            Some(first_singular_of(stem))
        } else {
            Some(plural_of(stem, "", if stem is Soft { "и" } else { "ы" }))
        },
        Declension::Second => if number is Singular {
            second_singular_of(stem, gender)
        } else {
            Some(second_plural_of(stem, gender))
        },
        Declension::Third => if number is Singular {
            Some(third_singular_of())
        } else {
            Some(plural_of(Stem::Soft, "ей", "и"))
        },
        Declension::Mixed => if number is Singular {
            Some(mixed_singular_of())
        } else {
            Some(plural_of(Stem::Hard, "ён", "а"))
        },
        Declension::Adjectival => Some(adjectival_of(stem, gender, number)),
        Declension::Indeclinable => None,
    }
}

/// The endings a noun takes in the number asked for. An indeclinable noun
/// has no paradigm, and neither has a gender the second declension does not
/// tell apart. The mixed nouns grow their plural on a hard stem: `временам`.
pub fn table(declension: Declension, stem: Stem, gender: Gender, number: Number) -> (res: Option<
    Endings,
>)
    ensures
        res == table_of(declension, stem, gender, number),
{
    let singular = matches!(number, Number::Singular);
    match declension {
        Declension::First => if singular {
            Some(first_singular(stem))
        } else {
            Some(plural(stem, "", match stem {
                Stem::Hard => "ы",
                Stem::Soft => "и",
            }))
        },
        Declension::Second => if singular {
            second_singular(stem, gender)
        } else {
            Some(second_plural(stem, gender))
        },
        Declension::Third => if singular {
            Some(third_singular())
        } else {
            Some(plural(Stem::Soft, "ей", "и"))
        },
        Declension::Mixed => if singular {
            Some(mixed_singular())
        } else {
            Some(plural(Stem::Hard, "ён", "а"))
        },
        Declension::Adjectival => Some(adjectival(stem, gender, number)),
        Declension::Indeclinable => None,
    }
}

/// The mixed singular row.
fn mixed_singular() -> (res: Endings)
    ensures
        res == mixed_singular_of(),
{
    Endings {
        nominative: "я",
        genitive: "и",
        dative: "и",
        accusative: Some("я"),
        instrumental: "ем",
        prepositional: "и",
    }
}

/// The agreeing table as a noun's row.
fn adjectival(stem: Stem, gender: Gender, number: Number) -> (res: Endings)
    ensures
        res == adjectival_of(stem, gender, number),
{
    let held = attributive::table(stem, gender, number, false);
    Endings {
        nominative: held.nominative,
        genitive: held.genitive,
        dative: held.dative,
        accusative: held.accusative,
        instrumental: held.instrumental,
        prepositional: held.prepositional,
    }
}

/// The first declension's singular row.
fn first_singular(stem: Stem) -> (res: Endings)
    ensures
        res == first_singular_of(stem),
{
    match stem {
        Stem::Hard => Endings {
            nominative: "а",
            genitive: "ы",
            dative: "е",
            accusative: Some("у"),
            instrumental: "ой",
            prepositional: "е",
        },
        Stem::Soft => Endings {
            nominative: "я",
            genitive: "и",
            dative: "е",
            accusative: Some("ю"),
            instrumental: "ей",
            prepositional: "е",
        },
    }
}

/// The second declension's singular row, by gender and stem.
fn second_singular(stem: Stem, gender: Gender) -> (res: Option<Endings>)
    ensures
        res == second_singular_of(stem, gender),
{
    match (gender, stem) {
        (Gender::Masculine, Stem::Hard) => Some(
            Endings {
                nominative: "",
                genitive: "а",
                dative: "у",
                accusative: None,
                instrumental: "ом",
                prepositional: "е",
            },
        ),
        (Gender::Masculine, Stem::Soft) => Some(
            Endings {
                nominative: "ь",
                genitive: "я",
                dative: "ю",
                accusative: None,
                instrumental: "ем",
                prepositional: "е",
            },
        ),
        (Gender::Neuter, Stem::Hard) => Some(
            Endings {
                nominative: "о",
                genitive: "а",
                dative: "у",
                accusative: Some("о"),
                instrumental: "ом",
                prepositional: "е",
            },
        ),
        (Gender::Neuter, Stem::Soft) => Some(
            Endings {
                nominative: "е",
                genitive: "я",
                dative: "ю",
                accusative: Some("е"),
                instrumental: "ем",
                prepositional: "е",
            },
        ),
        _ => None,
    }
}

/// The third declension's singular row.
fn third_singular() -> (res: Endings)
    ensures
        res == third_singular_of(),
{
    Endings {
        nominative: "ь",
        genitive: "и",
        dative: "и",
        accusative: Some("ь"),
        instrumental: "ью",
        prepositional: "и",
    }
}

/// The second declension's plural row.
fn second_plural(stem: Stem, gender: Gender) -> (res: Endings)
    ensures
        res == second_plural_of(stem, gender),
{
    match (gender, stem) {
        (Gender::Neuter, Stem::Hard) => plural(Stem::Hard, "", "а"),
        (Gender::Neuter, Stem::Soft) => plural(Stem::Soft, "ей", "я"),
        (_, Stem::Hard) => plural(Stem::Hard, "ов", "ы"),
        (_, Stem::Soft) => plural(Stem::Soft, "ей", "и"),
    }
}

/// A plural row.
fn plural(stem: Stem, genitive: &'static str, nominative: &'static str) -> (res: Endings)
    ensures
        res == plural_of(stem, genitive, nominative),
{
    let (dative, instrumental, prepositional) = match stem {
        Stem::Hard => ("ам", "ами", "ах"),
        Stem::Soft => ("ям", "ями", "ях"),
    };
    Endings { nominative, genitive, dative, accusative: None, instrumental, prepositional }
}

/// Whether a noun is alive tells only in the accusative: a paradigm gives
/// the same ending either way in every other case.
pub proof fn animacy_tells_only_in_the_accusative(endings: Endings, case: Case)
    requires
        !(case is Accusative),
    ensures
        endings.of(case, Animacy::Animate) == endings.of(case, Animacy::Inanimate),
{
}

/// The third declension says `-и` in the genitive, the dative and the
/// prepositional singular alike, repeats its nominative `-ь` in the
/// accusative, and adds `-ю` to it in the instrumental: `ночи`, `ночь`,
/// `ночью`.
pub proof fn the_third_declension_says_i_thrice(stem: Stem, gender: Gender)
    ensures
        table_of(Declension::Third, stem, gender, Number::Singular) matches Some(table) && {
            &&& table.genitive@ == "и"@
            &&& table.dative == table.genitive
            &&& table.prepositional == table.genitive
            &&& table.accusative == Some(table.nominative)
            &&& table.nominative@ == "ь"@
            &&& table.instrumental@ == table.nominative@ + "ю"@
        },
{
    reveal_strlit("и");
    reveal_strlit("ь");
    reveal_strlit("ю");
    reveal_strlit("ью");
}

} // verus!
