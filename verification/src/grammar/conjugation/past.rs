//! The past tense, which states gender and number and says nothing of person.
//!
//! The past agrees the way an adjective agrees: `он читал`, `она читала`,
//! `они читали`. A stem that ends in a consonant has nowhere to put the `л` of
//! the masculine: `нёс`, `несла`.

use vstd::prelude::*;

use crate::alphabet::is_vowel;
use crate::grammar::{gender::Gender, number::Number};
use crate::text::{last_char, last_of};

verus! {

/// The four cells of the past.
#[derive(Debug, Clone, Copy, PartialEq, Eq)]
pub struct Endings {
    /// он
    pub masculine: &'static str,
    /// она
    pub feminine: &'static str,
    /// оно
    pub neuter: &'static str,
    /// они
    pub plural: &'static str,
}

impl Endings {
    /// The ending for one gender and number. The plural states no gender, so
    /// a gender given with it is ignored rather than refused.
    #[verifier::allow_in_spec]
    pub fn of(&self, gender: Gender, number: Number) -> &'static str
        returns
            match number {
                Number::Plural => self.plural,
                Number::Singular => match gender {
                    Gender::Feminine => self.feminine,
                    Gender::Neuter => self.neuter,
                    _ => self.masculine,
                },
            },
    {
        match number {
            Number::Plural => self.plural,
            Number::Singular => match gender {
                Gender::Feminine => self.feminine,
                Gender::Neuter => self.neuter,
                _ => self.masculine,
            },
        }
    }
}

/// Whether a stem ends in a vowel, the one question the past asks of it.
pub open spec fn ends_in_vowel(stem: Seq<char>) -> bool {
    match last_of(stem) {
        Some(last) => is_vowel(last),
        None => false,
    }
}

/// The past endings of a stem: `л` in the masculine after a vowel, nothing
/// after a consonant, and `ла`, `ло`, `ли` either way.
pub open spec fn table_of(stem: Seq<char>) -> Endings {
    Endings {
        masculine: if ends_in_vowel(stem) { "л" } else { "" },
        feminine: "ла",
        neuter: "ло",
        plural: "ли",
    }
}

/// The past endings a stem takes.
pub fn table(stem: &str) -> (res: Endings)
    ensures
        res == table_of(stem@),
{
    let after_vowel = match last_char(stem) {
        Some(last) => is_vowel(last),
        None => false,
    };
    Endings { masculine: if after_vowel { "л" } else { "" }, feminine: "ла", neuter: "ло", plural: "ли" }
}


/// The plural states no gender, and the common gender is read as the
/// masculine, whatever the stem.
pub proof fn the_plural_states_no_gender(stem: Seq<char>, first: Gender, second: Gender)
    ensures
        table_of(stem).of(first, Number::Plural) == table_of(stem).of(second, Number::Plural),
        table_of(stem).of(Gender::Common, Number::Singular) == table_of(stem).of(
            Gender::Masculine,
            Number::Singular,
        ),
{
}

} // verus!
