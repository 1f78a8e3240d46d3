//! Writes a verb out from its infinitive: the present, the past and the
//! imperative, each built on the stem its class gives and spelled by the
//! rules every ending obeys.
//!
//! A verb the rules cannot reach — a listed class, a consonant stem whose past
//! hides a letter — is refused rather than written wrong.

use vstd::prelude::*;

use super::class::{self, class_of, Class};
use super::endings::{self, table_of};
use super::imperative::{self, ending_of, PLURAL};
use super::past::{self, table_of as past_table_of};
use super::reflexive::{self, bare_of, particle_of, the_particle_follows_the_last_letter, vowel_letter};
use super::stems::{self, first_person_of, past_of, present_of};
use super::Conjugation;
use crate::alphabet::{is_sibilant, is_vowel};
use crate::grammar::declension::spelling::{fitted, fitted_of};
use crate::grammar::form::verb::VerbForm;
use crate::grammar::form::Bare;
use crate::grammar::gender::Gender;
use crate::grammar::number::Number;
use crate::grammar::stem::Stem;
use crate::grammar::tense::Person;
use crate::text::{ends_with, joined, last_of, owned, push_letter, rest_of, seen};

verus! {

/// The stem shape that chooses between the hard and the soft endings: a
/// sibilant is hard whatever follows, a vowel or the glide soft, and every
/// stem of the second conjugation soft.
pub open spec fn shape_of(stem: Seq<char>, conjugation: Conjugation) -> Stem {
    if stem.len() == 0 {
        Stem::Hard
    } else if is_sibilant(stem.last()) {
        Stem::Hard
    } else if is_vowel(stem.last()) || stem.last() == 'й' {
        Stem::Soft
    } else if conjugation is Second {
        Stem::Soft
    } else {
        Stem::of(stem.last())
    }
}

/// Whether a vowel carries the glide in itself: `ю`, `я`, `е`, `ё`, `и`.
pub open spec fn carries_glide(c: char) -> bool {
    c == 'ю' || c == 'я' || c == 'е' || c == 'ё' || c == 'и'
}

/// The vowel that writes the glide together with a plain one, if any.
pub open spec fn iotated(c: char) -> Option<char> {
    if c == 'у' {
        Some('ю')
    } else if c == 'а' {
        Some('я')
    } else if c == 'э' {
        Some('е')
    } else if c == 'о' {
        Some('ё')
    } else {
        None
    }
}

/// A stem and an ending written as one word: a stem closing on the glide
/// lets the ending's vowel carry it.
pub open spec fn glided_of(stem: Seq<char>, ending: Seq<char>) -> Seq<char> {
    if stem.len() == 0 || ending.len() == 0 || stem.last() != 'й' {
        stem + ending
    } else if carries_glide(ending[0]) {
        stem.drop_last() + ending
    } else {
        match iotated(ending[0]) {
            Some(held) => stem.drop_last().push(held) + ending.drop_first(),
            None => stem + ending,
        }
    }
}

/// A cell of the present.
pub open spec fn present_cell(
    infinitive: Seq<char>,
    person: Person,
    number: Number,
    stressed: bool,
) -> Option<Seq<char>> {
    let class = class_of(infinitive);
    match class.conjugation() {
        None => None,
        Some(conjugation) => match present_of(infinitive, class) {
            None => None,
            Some(base) => {
                let stem = if person is First && number is Singular {
                    first_person_of(base, class)
                } else {
                    base
                };
                match table_of(conjugation, shape_of(stem, conjugation), stressed) {
                    None => None,
                    Some(table) => Some(
                        glided_of(stem, fitted_of(stem, table.of(person, number)@, stressed)),
                    ),
                }
            },
        },
    }
}

/// A cell of the past; a consonant stem and a listed verb hide their past
/// stem from the infinitive, and have none.
pub open spec fn past_cell(infinitive: Seq<char>, held: Bare) -> Option<Seq<char>> {
    let class = class_of(infinitive);
    if class is Consonantal || class is Listed {
        None
    } else {
        match past_of(infinitive) {
            None => None,
            Some(stem) => {
                let gender = match held.gender() {
                    Some(gender) => gender,
                    None => Gender::Masculine,
                };
                Some(stem + past_table_of(stem).of(gender, held.number())@)
            },
        }
    }
}

/// The singular imperative, and the plural with `-те` after it.
pub open spec fn imperative_cell(infinitive: Seq<char>, number: Number, stressed: bool) -> Option<
    Seq<char>,
> {
    match present_of(infinitive, class_of(infinitive)) {
        None => None,
        Some(stem) => {
            let one = if stem.len() > 0 && stem.last() == 'й' {
                stem
            } else {
                glided_of(stem, fitted_of(stem, ending_of(stem, stressed).written()@, stressed))
            };
            Some(
                match number {
                    Number::Singular => one,
                    Number::Plural => one + PLURAL@,
                },
            )
        },
    }
}

/// A form of a verb without its particle.
pub open spec fn plain_form(infinitive: Seq<char>, form: VerbForm, stressed: bool) -> Option<
    Seq<char>,
> {
    match form {
        VerbForm::Present { person, number } => present_cell(infinitive, person, number, stressed),
        VerbForm::Past(held) => past_cell(infinitive, held),
        VerbForm::Imperative(number) => imperative_cell(infinitive, number, stressed),
        _ => None,
    }
}

/// A form of a verb as it is written; a reflexive verb writes the form of its
/// bare verb with the particle after it.
pub open spec fn written_of(infinitive: Seq<char>, form: VerbForm, stressed: bool) -> Option<
    Seq<char>,
>
    decreases infinitive.len(),
{
    if form is Infinitive {
        Some(infinitive)
    } else {
        match bare_of(infinitive) {
            Some(plain) => if plain.len() < infinitive.len() {
                match written_of(plain, form, stressed) {
                    Some(held) => Some(held + particle_of(held)@),
                    None => None,
                }
            } else {
                None
            },
            None => plain_form(infinitive, form, stressed),
        }
    }
}

/// Writes one form of a verb, given its infinitive and whether the ending
/// carries the stress. A form the rules cannot reach — a listed verb, a
/// hidden past, a participle — is refused.
pub fn written(infinitive: &str, form: VerbForm, stressed: bool) -> (res: Option<String>)
    ensures
        seen(res) == written_of(infinitive@, form, stressed),
    decreases infinitive@.len(),
{
    if matches!(form, VerbForm::Infinitive) {
        return Some(owned(infinitive));
    }
    match reflexive::bare(infinitive) {
        Some(plain) => {
            proof {
                reveal_strlit("ся");
                reveal_strlit("сь");
            }
            match written(plain.as_str(), form, stressed) {
                Some(held) => Some(reflexive::attached(held.as_str())),
                None => None,
            }
        },
        None => match form {
            VerbForm::Present { person, number } => present(infinitive, person, number, stressed),
            VerbForm::Past(held) => gone(infinitive, held),
            VerbForm::Imperative(number) => bidden(infinitive, number, stressed),
            _ => None,
        },
    }
}

/// Writes the imperative.
fn bidden(infinitive: &str, number: Number, stressed: bool) -> (res: Option<String>)
    ensures
        seen(res) == imperative_cell(infinitive@, number, stressed),
{
    let class = class::of(infinitive);
    let stem = match stems::present(infinitive, class) {
        Some(stem) => stem,
        None => return None,
    };
    let n = stem.as_str().unicode_len();
    let one = if n > 0 && stem.as_str().get_char(n - 1) == 'й' {
        stem
    } else {
        let ending = imperative::of(stem.as_str(), stressed).written();
        let spelled = fitted(stem.as_str(), ending, stressed);
        glided(stem.as_str(), spelled.as_str())
    };
    match number {
        Number::Singular => Some(one),
        Number::Plural => Some(joined(one.as_str(), PLURAL)),
    }
}

/// Writes a cell of the present.
fn present(infinitive: &str, person: Person, number: Number, stressed: bool) -> (res: Option<
    String,
>)
    ensures
        seen(res) == present_cell(infinitive@, person, number, stressed),
{
    let class = class::of(infinitive);
    let conjugation = match class.conjugation() {
        Some(conjugation) => conjugation,
        None => return None,
    };
    let base = match stems::present(infinitive, class) {
        Some(base) => base,
        None => return None,
    };
    let stem = if matches!(person, Person::First) && matches!(number, Number::Singular) {
        stems::first_person(base.as_str(), class)
    } else {
        base
    };
    let table = match endings::table(conjugation, shape(stem.as_str(), conjugation), stressed) {
        Some(table) => table,
        None => return None,
    };
    let spelled = fitted(stem.as_str(), table.of(person, number), stressed);
    Some(glided(stem.as_str(), spelled.as_str()))
}

/// Writes a cell of the past.
fn gone(infinitive: &str, held: Bare) -> (res: Option<String>)
    ensures
        seen(res) == past_cell(infinitive@, held),
{
    let class = class::of(infinitive);
    if matches!(class, Class::Consonantal) || matches!(class, Class::Listed) {
        return None;
    }
    let stem = match stems::past(infinitive) {
        Some(stem) => stem,
        None => return None,
    };
    let table = past::table(stem.as_str());
    let gender = match held.gender() {
        Some(gender) => gender,
        None => Gender::Masculine,
    };
    Some(joined(stem.as_str(), table.of(gender, held.number())))
}

/// The stem shape that chooses the endings.
pub fn shape(stem: &str, conjugation: Conjugation) -> (res: Stem)
    ensures
        res == shape_of(stem@, conjugation),
{
    let n = stem.unicode_len();
    if n == 0 {
        return Stem::Hard;
    }
    let last = stem.get_char(n - 1);
    if is_sibilant(last) {
        return Stem::Hard;
    }
    if is_vowel(last) || last == 'й' {
        return Stem::Soft;
    }
    if matches!(conjugation, Conjugation::Second) {
        return Stem::Soft;
    }
    Stem::of(last)
}

/// Writes a stem and an ending as one word, the glide given to the ending's
/// vowel.
pub fn glided(stem: &str, ending: &str) -> (res: String)
    ensures
        res@ == glided_of(stem@, ending@),
{
    let n = stem.unicode_len();
    let m = ending.unicode_len();
    if n == 0 || m == 0 || stem.get_char(n - 1) != 'й' {
        return joined(stem, ending);
    }
    let first = ending.get_char(0);
    let head = crate::text::drop_last(stem);
    if first == 'ю' || first == 'я' || first == 'е' || first == 'ё' || first == 'и' {
        return joined(head, ending);
    }
    let merged = if first == 'у' {
        'ю'
    } else if first == 'а' {
        'я'
    } else if first == 'э' {
        'е'
    } else if first == 'о' {
        'ё'
    } else {
        return joined(stem, ending);
    };
    let mut held = owned(head);
    push_letter(&mut held, merged);
    let rest = rest_of(ending, 1);
    assert(rest@ =~= ending@.drop_first());
    held.append(rest);
    held
}

/// A written form for a form that may be absent: the verb's written form with
/// the particle after it.
pub open spec fn with_particle(held: Option<Seq<char>>) -> Option<Seq<char>> {
    match held {
        Some(written) => Some(written + particle_of(written)@),
        None => None,
    }
}

/// How the forms of a verb hang together. The infinitive is the verb
/// itself. A reflexive verb writes every other form of its bare verb with the
/// particle after it. Otherwise the plural imperative is the singular with
/// `-те`; a listed verb is refused every form but the infinitive, and a verb
/// on a consonant stem its past.
pub proof fn the_forms_of_a_verb_hang_together(infinitive: Seq<char>, form: VerbForm, stressed: bool)
    ensures
        written_of(infinitive, VerbForm::Infinitive, stressed) == Some(infinitive),
        bare_of(infinitive) is Some && !(form is Infinitive) ==> written_of(infinitive, form, stressed)
            == with_particle(written_of(bare_of(infinitive).unwrap(), form, stressed)),
        bare_of(infinitive) is None ==> written_of(infinitive, VerbForm::Imperative(Number::Plural), stressed)
            == match written_of(infinitive, VerbForm::Imperative(Number::Singular), stressed) {
            Some(one) => Some(one + "те"@),
            None => None,
        },
        bare_of(infinitive) is None && class_of(infinitive) is Listed && !(form is Infinitive)
            ==> written_of(infinitive, form, stressed) is None,
        bare_of(infinitive) is None && class_of(infinitive) is Consonantal && form is Past
            ==> written_of(infinitive, form, stressed) is None,
{
    reveal_strlit("ся");
    reveal_strlit("сь");
    reveal_strlit("те");
    assert(PLURAL@ == "те"@);
}

/// A reflexive verb's form ends in `-сь` when its bare verb's form ends in a
/// vowel, and in `-ся` otherwise: `училось`, `учился`.
pub proof fn a_reflexive_form_ends_in_its_particle(infinitive: Seq<char>, form: VerbForm, stressed: bool)
    requires
        bare_of(infinitive) is Some,
        !(form is Infinitive),
        written_of(bare_of(infinitive).unwrap(), form, stressed) is Some,
    ensures
        ({
            let held = written_of(bare_of(infinitive).unwrap(), form, stressed).unwrap();
            &&& held.len() > 0 && vowel_letter(held.last()) ==> written_of(infinitive, form, stressed)
                == Some(held + "сь"@)
            &&& !(held.len() > 0 && vowel_letter(held.last())) ==> written_of(
                infinitive,
                form,
                stressed,
            ) == Some(held + "ся"@)
        }),
{
    the_forms_of_a_verb_hang_together(infinitive, form, stressed);
    the_particle_follows_the_last_letter(written_of(bare_of(infinitive).unwrap(), form, stressed).unwrap());
}

} // verus!
