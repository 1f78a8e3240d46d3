//! The declension of Russian nouns, adjectives, pronouns and numerals: the
//! dictionary index that names a word's pattern, and the paradigms that write
//! the word out from it.

pub mod adjective;
pub mod agreed;
pub mod attributive;
pub mod endings;
pub mod index;
pub mod noun;
pub mod numeral;
pub mod pronominal;
pub mod reading;
pub mod spelling;
pub mod stated;

use vstd::prelude::*;

use crate::alphabet::is_consonant;
use crate::grammar::gender::Gender;
use crate::grammar::stem::Stem;
use crate::text::{among, ends_with, ends_with_str, is_among, last_of};

verus! {

/// The paradigm a noun declines by.
#[derive(Debug, Clone, Copy, PartialEq, Eq, Hash, Structural)]
pub enum Declension {
    /// `-а`, `-я`: `вода`, `земля`, `папа`.
    First,
    /// A masculine in a consonant or `-ь`, a neuter in `-о`, `-е`: `стол`,
    /// `окно`.
    Second,
    /// A feminine in `-ь`: `ночь`.
    Third,
    /// The ten nouns in `-мя` and `путь`.
    Mixed,
    /// A noun declined as an adjective: `столовая`.
    Adjectival,
    /// A noun with no endings: `пальто`.
    Indeclinable,
}

/// The mixed nouns: the ten in `-мя`, and `путь`.
pub const MIXED: [&'static str; 11] = [
    "бремя", "время", "вымя", "знамя", "имя", "пламя", "племя", "семя", "стремя", "темя", "путь",
];

/// What a mixed noun in `-мя` grows before its endings: `времени`.
pub const GROWTH: &'static str = "ен";

/// The endings that mark a noun declined as an adjective.
pub const ADJECTIVAL: [&'static str; 5] = ["ый", "ое", "ее", "яя", "ые"];

/// The endings that put a stem on the glide.
pub const ON_GLIDE: [&'static str; 3] = ["ий", "ия", "ие"];

/// Whether a word longer than three letters ends in one of the endings
/// given.
pub open spec fn closes_on(nominative: Seq<char>, endings: Seq<&str>) -> bool {
    nominative.len() > 3 && exists|i: int| 0 <= i < endings.len() && ends_with(nominative, endings[i]@)
}

/// Reports whether a word longer than three letters ends in one of the
/// endings given.
fn closes(nominative: &str, endings: &[&str]) -> (res: bool)
    ensures
        res == closes_on(nominative@, endings@),
{
    if nominative.unicode_len() <= 3 {
        return false;
    }
    let mut i: usize = 0;
    while i < endings.len()
        invariant
            i <= endings@.len(),
            nominative@.len() > 3,
            forall|k: int| 0 <= k < i ==> !ends_with(nominative@, endings@[k]@),
        decreases endings@.len() - i,
    {
        if ends_with_str(nominative, endings[i]) {
            return true;
        }
        i = i + 1;
    }
    false
}

/// Reports whether a noun's stem ends on the glide written `и`: `армия`,
/// `гений`, `собрание`. A word of three letters or fewer has no such stem.
pub fn on_glide(nominative: &str) -> (res: bool)
    ensures
        res == closes_on(nominative@, ON_GLIDE@),
{
    closes(nominative, &ON_GLIDE)
}

/// The paradigm a noun's nominative and gender put it in.
pub open spec fn declension_of(nominative: Seq<char>, gender: Gender) -> Declension {
    if among(nominative, MIXED@) {
        Declension::Mixed
    } else if closes_on(nominative, ADJECTIVAL@) {
        Declension::Adjectival
    } else if nominative.len() == 0 {
        Declension::Indeclinable
    } else {
        let last = nominative.last();
        if (last == 'а' || last == 'я') && !(gender is Neuter) {
            Declension::First
        } else if last == 'ь' && gender is Feminine {
            Declension::Third
        } else if (last == 'ь' || last == 'й' || last == 'о' || last == 'е' || last == 'ё') && (
        gender is Masculine || gender is Neuter) {
            Declension::Second
        } else if gender is Masculine && is_consonant(last) {
            Declension::Second
        } else {
            Declension::Indeclinable
        }
    }
}

/// Names the paradigm a noun declines by, given its nominative and gender.
pub fn of(nominative: &str, gender: Gender) -> (res: Declension)
    ensures
        res == declension_of(nominative@, gender),
{
    if is_among(nominative, &MIXED) {
        return Declension::Mixed;
    }
    if closes(nominative, &ADJECTIVAL) {
        return Declension::Adjectival;
    }
    let n = nominative.unicode_len();
    if n == 0 {
        return Declension::Indeclinable;
    }
    let last = nominative.get_char(n - 1);
    if (last == 'а' || last == 'я') && !matches!(gender, Gender::Neuter) {
        Declension::First
    } else if last == 'ь' && matches!(gender, Gender::Feminine) {
        Declension::Third
    } else if (last == 'ь' || last == 'й' || last == 'о' || last == 'е' || last == 'ё') && (matches!(
        gender,
        Gender::Masculine
    ) || matches!(gender, Gender::Neuter)) {
        Declension::Second
    } else if matches!(gender, Gender::Masculine) && is_consonant(last) {
        Declension::Second
    } else {
        Declension::Indeclinable
    }
}

/// The stem shape a noun's nominative shows: soft after `я`, `е`, `ё`, `ь`
/// or `й`, hard otherwise.
pub open spec fn stem_of(nominative: Seq<char>) -> Stem {
    match last_of(nominative) {
        Some(last) => if last == 'я' || last == 'е' || last == 'ё' || last == 'ь' || last == 'й' {
            Stem::Soft
        } else {
            Stem::Hard
        },
        None => Stem::Hard,
    }
}

/// Reports the stem shape a noun's nominative shows.
pub fn stem(nominative: &str) -> (res: Stem)
    ensures
        res == stem_of(nominative@),
{
    let n = nominative.unicode_len();
    if n == 0 {
        return Stem::Hard;
    }
    let last = nominative.get_char(n - 1);
    if last == 'я' || last == 'е' || last == 'ё' || last == 'ь' || last == 'й' {
        Stem::Soft
    } else {
        Stem::Hard
    }
}

} // verus!
