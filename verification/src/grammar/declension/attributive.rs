//! The endings of a word that agrees: the full adjective, the participle,
//! the ordinal. One table for every such word, keyed by the stem's shape,
//! the gender, the number and whether the ending carries the stress.

use vstd::prelude::*;

use crate::grammar::case::Case;
use crate::grammar::gender::{Animacy, Gender};
use crate::grammar::number::Number;
use crate::grammar::stem::Stem;

verus! {

/// The endings of one gender or of the plural.
#[derive(Debug, Clone, Copy, PartialEq, Eq)]
pub struct Endings {
    /// Nominative.
    pub nominative: &'static str,
    /// Genitive.
    pub genitive: &'static str,
    /// Dative.
    pub dative: &'static str,
    /// Accusative, when the table states one of its own.
    pub accusative: Option<&'static str>,
    /// Instrumental.
    pub instrumental: &'static str,
    /// Prepositional.
    pub prepositional: &'static str,
}

impl Endings {
    /// The ending of a case. A case the table has no row for reads the row of
    /// the case it counts as; the accusative without a row of its own repeats
    /// the genitive for a living being and the nominative for a thing.
    #[verifier::allow_in_spec]
    pub fn of(&self, case: Case, animacy: Animacy) -> &'static str
        returns
            match case.merged() {
                Case::Nominative => self.nominative,
                Case::Vocative => self.nominative,
                Case::Dative => self.dative,
                Case::Instrumental => self.instrumental,
                Case::Prepositional => self.prepositional,
                Case::Accusative => match self.accusative {
                    Some(held) => held,
                    None => match animacy {
                        Animacy::Animate => self.genitive,
                        Animacy::Inanimate => self.nominative,
                    },
                },
                _ => self.genitive,
            },
    {
        match case.merged() {
            Case::Nominative => self.nominative,
            Case::Vocative => self.nominative,
            Case::Dative => self.dative,
            Case::Instrumental => self.instrumental,
            Case::Prepositional => self.prepositional,
            Case::Accusative => match self.accusative {
                Some(held) => held,
                None => match animacy {
                    Animacy::Animate => self.genitive,
                    Animacy::Inanimate => self.nominative,
                },
            },
            _ => self.genitive,
        }
    }
}

/// The masculine: `новый`, `молодой` under the stress, `синий`.
pub open spec fn masculine_of(shape: Stem, stressed: bool) -> Endings {
    if shape is Soft {
        Endings {
            nominative: "ий",
            genitive: "его",
            dative: "ему",
            accusative: None,
            instrumental: "им",
            prepositional: "ем",
        }
    } else {
        Endings {
            nominative: if stressed { "ой" } else { "ый" },
            genitive: "ого",
            dative: "ому",
            accusative: None,
            instrumental: "ым",
            prepositional: "ом",
        }
    }
}

/// The neuter: the masculine's rows with its own nominative and accusative.
pub open spec fn neuter_of(shape: Stem, stressed: bool) -> Endings {
    let nominative = if shape is Soft { "ее" } else { "ое" };
    Endings { nominative, accusative: Some(nominative), ..masculine_of(shape, stressed) }
}

/// The feminine: `новая`, `синяя`.
pub open spec fn feminine_of(shape: Stem) -> Endings {
    if shape is Soft {
        Endings {
            nominative: "яя",
            genitive: "ей",
            dative: "ей",
            accusative: Some("юю"),
            instrumental: "ей",
            prepositional: "ей",
        }
    } else {
        Endings {
            nominative: "ая",
            genitive: "ой",
            dative: "ой",
            accusative: Some("ую"),
            instrumental: "ой",
            prepositional: "ой",
        }
    }
}

/// The plural, which states no gender: `новые`, `синие`.
pub open spec fn plural_of(shape: Stem) -> Endings {
    if shape is Soft {
        Endings {
            nominative: "ие",
            genitive: "их",
            dative: "им",
            accusative: None,
            instrumental: "ими",
            prepositional: "их",
        }
    } else {
        Endings {
            nominative: "ые",
            genitive: "ых",
            dative: "ым",
            accusative: None,
            instrumental: "ыми",
            prepositional: "ых",
        }
    }
}

/// The table of one gender or of the plural.
pub open spec fn table_of(shape: Stem, gender: Gender, number: Number, stressed: bool) -> Endings {
    if number is Plural {
        plural_of(shape)
    } else if gender is Feminine {
        feminine_of(shape)
    } else if gender is Neuter {
        neuter_of(shape, stressed)
    } else {
        masculine_of(shape, stressed)
    }
}

/// The endings an agreeing word takes in one gender, or in the plural. The
/// common gender agrees as the masculine.
pub fn table(shape: Stem, gender: Gender, number: Number, stressed: bool) -> (res: Endings)
    ensures
        res == table_of(shape, gender, number, stressed),
{
    match number {
        Number::Plural => plural(shape),
        Number::Singular => match gender {
            Gender::Feminine => feminine(shape),
            Gender::Neuter => neuter(shape, stressed),
            _ => masculine(shape, stressed),
        },
    }
}

/// The masculine table.
fn masculine(shape: Stem, stressed: bool) -> (res: Endings)
    ensures
        res == masculine_of(shape, stressed),
{
    match shape {
        Stem::Hard => Endings {
            nominative: if stressed { "ой" } else { "ый" },
            genitive: "ого",
            dative: "ому",
            accusative: None,
            instrumental: "ым",
            prepositional: "ом",
        },
        Stem::Soft => Endings {
            nominative: "ий",
            genitive: "его",
            dative: "ему",
            accusative: None,
            instrumental: "им",
            prepositional: "ем",
        },
    }
}

/// The neuter table.
fn neuter(shape: Stem, stressed: bool) -> (res: Endings)
    ensures
        res == neuter_of(shape, stressed),
{
    let held = masculine(shape, stressed);
    let nominative = match shape {
        Stem::Hard => "ое",
        Stem::Soft => "ее",
    };
    Endings { nominative, accusative: Some(nominative), ..held }
}

/// The feminine table.
fn feminine(shape: Stem) -> (res: Endings)
    ensures
        res == feminine_of(shape),
{
    match shape {
        Stem::Hard => Endings {
            nominative: "ая",
            genitive: "ой",
            dative: "ой",
            accusative: Some("ую"),
            instrumental: "ой",
            prepositional: "ой",
        },
        Stem::Soft => Endings {
            nominative: "яя",
            genitive: "ей",
            dative: "ей",
            accusative: Some("юю"),
            instrumental: "ей",
            prepositional: "ей",
        },
    }
}

/// The plural table.
fn plural(shape: Stem) -> (res: Endings)
    ensures
        res == plural_of(shape),
{
    match shape {
        Stem::Hard => Endings {
            nominative: "ые",
            genitive: "ых",
            dative: "ым",
            accusative: None,
            instrumental: "ыми",
            prepositional: "ых",
        },
        Stem::Soft => Endings {
            nominative: "ие",
            genitive: "их",
            dative: "им",
            accusative: None,
            instrumental: "ими",
            prepositional: "их",
        },
    }
}

/// Every ending of the plural opens on `и` after a soft stem and on `ы`
/// after a hard one, the prepositional repeats the genitive, and the
/// instrumental is the dative with `-и` after it: `синим`, `синими`;
/// `новым`, `новыми`.
pub proof fn the_plural_opens_on_one_vowel(shape: Stem, gender: Gender, stressed: bool)
    ensures
        ({
            let table = table_of(shape, gender, Number::Plural, stressed);
            let vowel = if shape is Soft { 'и' } else { 'ы' };
            &&& table.nominative@[0] == vowel
            &&& table.genitive@[0] == vowel
            &&& table.dative@[0] == vowel
            &&& table.instrumental@[0] == vowel
            &&& table.prepositional == table.genitive
            &&& table.accusative is None
            &&& table.instrumental@ == table.dative@ + "и"@
            &&& table.dative@.len() == 2
        }),
{
    reveal_strlit("ие");
    reveal_strlit("их");
    reveal_strlit("им");
    reveal_strlit("ими");
    reveal_strlit("ые");
    reveal_strlit("ых");
    reveal_strlit("ым");
    reveal_strlit("ыми");
    reveal_strlit("и");
}

} // verus!
