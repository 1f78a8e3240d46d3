//! Writes a verb out from its infinitive and its dictionary index.
//!
//! The index states what the infinitive hides: the class that builds the
//! present stem, the stress that chooses between `е` and `ё`, the numerals
//! that bend one cell. Whatever it marks as beyond the rules — a `^`, a note,
//! a class whose stem is the dictionary's own — is refused.

use vstd::prelude::*;

pub mod bidden;
pub mod gone;
pub mod reading;
pub mod stem;

use self::stem::stated_stem;
use super::class::Class;
use super::endings::{self, table_of};
use super::index::kind::Kind;
use super::index::scheme::Scheme;
use super::index::VerbIndex;
use super::inflect::{glided, glided_of, shape, shape_of};
use super::reflexive::{self, bare_of, particle_of, the_particle_follows_the_last_letter, vowel_letter};
use super::stems::{self, first_person_of};
use super::Conjugation;
use crate::grammar::declension::spelling::{fitted, fitted_of};
use crate::grammar::form::verb::VerbForm;
use crate::grammar::number::Number;
use crate::grammar::stem::Stem;
use crate::grammar::tense::Person;
use crate::text::{owned, seen};

verus! {

/// Whether an index's class takes the second conjugation: the fourth and
/// the fifth.
#[verifier::allow_in_spec]
pub fn second(kind: Kind) -> bool
    returns
        kind is Four || kind is Five,
{
    matches!(kind, Kind::Four | Kind::Five)
}

/// A cell of the present as the index states it.
pub open spec fn stated_present(
    infinitive: Seq<char>,
    index: VerbIndex,
    person: Person,
    number: Number,
) -> Option<Seq<char>> {
    if index.present is CPrime || index.present is CDouble {
        None
    } else {
        match stated_stem(infinitive, index) {
            None => None,
            Some(base) => {
                let held = if person is First && number is Singular && second(index.kind) {
                    first_person_of(base, Class::Bare)
                } else {
                    base
                };
                let conjugation = if second(index.kind) {
                    Conjugation::Second
                } else {
                    Conjugation::First
                };
                let shape = if index.kind is Ten {
                    Stem::Soft
                } else {
                    shape_of(held, conjugation)
                };
                let stressed = index.present is B;
                match table_of(conjugation, shape, stressed) {
                    None => None,
                    Some(table) => Some(
                        glided_of(held, fitted_of(held, table.of(person, number)@, stressed)),
                    ),
                }
            },
        }
    }
}

/// A form of a verb without its particle, as the index states it.
pub open spec fn stated_plain(infinitive: Seq<char>, index: VerbIndex, form: VerbForm) -> Option<
    Seq<char>,
> {
    if form is Infinitive {
        Some(infinitive)
    } else if index.noted || index.kind is Isolated {
        None
    } else {
        match form {
            VerbForm::Present { person, number } => stated_present(infinitive, index, person, number),
            VerbForm::Past(held) => gone::stated_past(infinitive, index, held),
            VerbForm::Imperative(number) => bidden::stated_imperative(infinitive, index, number),
            _ => None,
        }
    }
}

/// A form of a verb as the index states it; a reflexive verb writes the form
/// of its bare verb with the particle after it.
pub open spec fn stated_form(
    infinitive: Seq<char>,
    index: VerbIndex,
    form: VerbForm,
    reflexive: bool,
) -> Option<Seq<char>> {
    if form is Infinitive {
        Some(infinitive)
    } else if reflexive {
        match bare_of(infinitive) {
            None => None,
            Some(plain) => match stated_plain(plain, index, form) {
                Some(held) => Some(held + particle_of(held)@),
                None => None,
            },
        }
    } else {
        stated_plain(infinitive, index, form)
    }
}

/// Writes one form of a verb as its index states it. A reflexive verb is
/// written through its bare verb, with the particle after the form.
pub fn written(infinitive: &str, index: VerbIndex, form: VerbForm, reflexive: bool) -> (res:
    Option<String>)
    ensures
        seen(res) == stated_form(infinitive@, index, form, reflexive),
{
    if matches!(form, VerbForm::Infinitive) {
        return Some(owned(infinitive));
    }
    if reflexive {
        let plain = match reflexive::bare(infinitive) {
            Some(plain) => plain,
            None => return None,
        };
        return match plain_written(plain.as_str(), index, form) {
            Some(held) => Some(reflexive::attached(held.as_str())),
            None => None,
        };
    }
    plain_written(infinitive, index, form)
}

/// Writes a form without its particle.
fn plain_written(infinitive: &str, index: VerbIndex, form: VerbForm) -> (res: Option<String>)
    ensures
        seen(res) == stated_plain(infinitive@, index, form),
{
    if matches!(form, VerbForm::Infinitive) {
        return Some(owned(infinitive));
    }
    if index.noted || matches!(index.kind, Kind::Isolated) {
        return None;
    }
    match form {
        VerbForm::Present { person, number } => present(infinitive, index, person, number),
        VerbForm::Past(held) => gone::written(infinitive, index, held),
        VerbForm::Imperative(number) => bidden::written(infinitive, index, number),
        _ => None,
    }
}

/// Writes a cell of the present.
fn present(infinitive: &str, index: VerbIndex, person: Person, number: Number) -> (res: Option<
    String,
>)
    ensures
        seen(res) == stated_present(infinitive@, index, person, number),
{
    if matches!(index.present, Scheme::CPrime) || matches!(index.present, Scheme::CDouble) {
        return None;
    }
    let base = match stem::present(infinitive, index) {
        Some(base) => base,
        None => return None,
    };
    let opening = matches!(person, Person::First) && matches!(number, Number::Singular);
    let held = if opening && second(index.kind) {
        stems::first_person(base.as_str(), Class::Bare)
    } else {
        base
    };
    let conjugation = if second(index.kind) {
        Conjugation::Second
    } else {
        Conjugation::First
    };
    let shaped = if matches!(index.kind, Kind::Ten) {
        Stem::Soft
    } else {
        shape(held.as_str(), conjugation)
    };
    let stressed = matches!(index.present, Scheme::B);
    let table = match endings::table(conjugation, shaped, stressed) {
        Some(table) => table,
        None => return None,
    };
    let spelled = fitted(held.as_str(), table.of(person, number), stressed);
    Some(glided(held.as_str(), spelled.as_str()))
}

/// A reflexive verb's stated form ends in `-сь` when its bare verb's form
/// ends in a vowel, and in `-ся` otherwise: `смеялось`, `смеялся`.
pub proof fn a_reflexive_stated_form_ends_in_its_particle(
    infinitive: Seq<char>,
    index: VerbIndex,
    form: VerbForm,
)
    requires
        bare_of(infinitive) is Some,
        !(form is Infinitive),
        stated_plain(bare_of(infinitive).unwrap(), index, form) is Some,
    ensures
        ({
            let held = stated_plain(bare_of(infinitive).unwrap(), index, form).unwrap();
            &&& held.len() > 0 && vowel_letter(held.last()) ==> stated_form(infinitive, index, form, true)
                == Some(held + "сь"@)
            &&& !(held.len() > 0 && vowel_letter(held.last())) ==> stated_form(
                infinitive,
                index,
                form,
                true,
            ) == Some(held + "ся"@)
        }),
{
    the_particle_follows_the_last_letter(stated_plain(bare_of(infinitive).unwrap(), index, form).unwrap());
}

} // verus!
