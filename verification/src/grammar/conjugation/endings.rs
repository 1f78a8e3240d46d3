//! The personal endings of the present and the simple future.
//!
//! Two sets, and the conjugation of the verb says which one it takes. Within a
//! set the first person singular and the third person plural bend to the stem
//! — `читаю` beside `несу` — and the rest of the first conjugation bends to the
//! stress: `читаешь` beside `несёшь`.

use vstd::prelude::*;

use super::Conjugation;
use crate::grammar::{number::Number, stem::Stem, tense::Person};

verus! {

/// The six personal endings of one verb.
#[derive(Debug, Clone, Copy, PartialEq, Eq)]
pub struct Endings {
    /// я
    pub first_singular: &'static str,
    /// ты
    pub second_singular: &'static str,
    /// он
    pub third_singular: &'static str,
    /// мы
    pub first_plural: &'static str,
    /// вы
    pub second_plural: &'static str,
    /// они
    pub third_plural: &'static str,
}

impl Endings {
    /// The ending for one person and number.
    #[verifier::allow_in_spec]
    pub fn of(&self, person: Person, number: Number) -> &'static str
        returns
            match (person, number) {
                (Person::First, Number::Singular) => self.first_singular,
                (Person::Second, Number::Singular) => self.second_singular,
                (Person::Third, Number::Singular) => self.third_singular,
                (Person::First, Number::Plural) => self.first_plural,
                (Person::Second, Number::Plural) => self.second_plural,
                (Person::Third, Number::Plural) => self.third_plural,
            },
    {
        match (person, number) {
            (Person::First, Number::Singular) => self.first_singular,
            (Person::Second, Number::Singular) => self.second_singular,
            (Person::Third, Number::Singular) => self.third_singular,
            (Person::First, Number::Plural) => self.first_plural,
            (Person::Second, Number::Plural) => self.second_plural,
            (Person::Third, Number::Plural) => self.third_plural,
        }
    }
}

/// The first conjugation: the stress moves `е` to `ё` in the four middle
/// cells and nowhere else.
pub open spec fn first_of(stem: Stem, stressed: bool) -> Endings {
    Endings {
        first_singular: if stem is Soft { "ю" } else { "у" },
        second_singular: if stressed { "ёшь" } else { "ешь" },
        third_singular: if stressed { "ёт" } else { "ет" },
        first_plural: if stressed { "ём" } else { "ем" },
        second_plural: if stressed { "ёте" } else { "ете" },
        third_plural: if stem is Soft { "ют" } else { "ут" },
    }
}

/// The second conjugation, which the stress does not bend.
pub open spec fn second_of(stem: Stem) -> Endings {
    Endings {
        first_singular: if stem is Soft { "ю" } else { "у" },
        second_singular: "ишь",
        third_singular: "ит",
        first_plural: "им",
        second_plural: "ите",
        third_plural: if stem is Soft { "ят" } else { "ат" },
    }
}

/// The verbs that draw from both sets: the singular of the first and the
/// plural of the second, which is `хотеть`.
pub open spec fn mixed_of(stem: Stem) -> Endings {
    Endings {
        first_singular: if stem is Soft { "ю" } else { "у" },
        second_singular: "ешь",
        third_singular: "ет",
        first_plural: "им",
        second_plural: "ите",
        third_plural: "ят",
    }
}

/// The table of a conjugation, absent for a verb outside both sets.
pub open spec fn table_of(conjugation: Conjugation, stem: Stem, stressed: bool) -> Option<Endings> {
    match conjugation {
        Conjugation::First => Some(first_of(stem, stressed)),
        Conjugation::Second => Some(second_of(stem)),
        Conjugation::Mixed => Some(mixed_of(stem)),
        Conjugation::Irregular => None,
    }
}

/// The endings a verb takes, given its conjugation, its stem and its stress.
///
/// The stress is asked for because the first conjugation writes `е` where the
/// ending is unstressed and `ё` where it is stressed. A verb that stands
/// outside both sets has no table: `есть` and `дать` are stated form by form.
pub fn table(conjugation: Conjugation, stem: Stem, stressed: bool) -> (res: Option<Endings>)
    ensures
        res == table_of(conjugation, stem, stressed),
{
    match conjugation {
        Conjugation::First => Some(first(stem, stressed)),
        Conjugation::Second => Some(second(stem)),
        Conjugation::Mixed => Some(mixed(stem)),
        Conjugation::Irregular => None,
    }
}

/// The first conjugation's table.
fn first(stem: Stem, stressed: bool) -> (res: Endings)
    ensures
        res == first_of(stem, stressed),
{
    let (single, third) = match stem {
        Stem::Soft => ("ю", "ют"),
        Stem::Hard => ("у", "ут"),
    };
    let (second_singular, third_singular, first_plural, second_plural) = if stressed {
        ("ёшь", "ёт", "ём", "ёте")
    } else {
        ("ешь", "ет", "ем", "ете")
    };
    Endings {
        first_singular: single,
        second_singular,
        third_singular,
        first_plural,
        second_plural,
        third_plural: third,
    }
}

/// The second conjugation's table.
fn second(stem: Stem) -> (res: Endings)
    ensures
        res == second_of(stem),
{
    let (single, third) = match stem {
        Stem::Soft => ("ю", "ят"),
        Stem::Hard => ("у", "ат"),
    };
    Endings {
        first_singular: single,
        second_singular: "ишь",
        third_singular: "ит",
        first_plural: "им",
        second_plural: "ите",
        third_plural: third,
    }
}

/// The mixed table.
fn mixed(stem: Stem) -> (res: Endings)
    ensures
        res == mixed_of(stem),
{
    let single = match stem {
        Stem::Soft => "ю",
        Stem::Hard => "у",
    };
    Endings {
        first_singular: single,
        second_singular: "ешь",
        third_singular: "ет",
        first_plural: "им",
        second_plural: "ите",
        third_plural: "ят",
    }
}


/// The stress bends only the first conjugation: the second and the mixed
/// tables are the same under either stress.
pub proof fn the_second_conjugation_ignores_the_stress(stem: Stem)
    ensures
        table_of(Conjugation::Second, stem, true) == table_of(Conjugation::Second, stem, false),
        table_of(Conjugation::Mixed, stem, true) == table_of(Conjugation::Mixed, stem, false),
{
}

} // verus!
