//! The dictionary form of a participle: the nominative masculine singular
//! the four participles are listed under, each built on the stem its tense
//! and voice take.

use vstd::prelude::*;

use super::inflect::{self, written_of};
use super::stems::{self, past_of};
use crate::alphabet::is_vowel;
use crate::grammar::aspect::Voice;
use crate::grammar::declension::spelling::{fitted, fitted_of};
use crate::grammar::form::verb::VerbForm;
use crate::grammar::number::Number;
use crate::grammar::tense::{Person, Tense};
use crate::text::{ends_with, ends_with_str, joined, owned, seen, strip_suffix, without_suffix};

verus! {

/// The ending of the dictionary form.
pub const NOMINATIVE: &'static str = "ый";

/// The suffix of the past active participle after a vowel: `читавший`.
pub const AFTER_VOWEL: &'static str = "вш";

/// The suffix of the past active participle after a consonant: `нёсший`.
pub const AFTER_CONSONANT: &'static str = "ш";

/// The suffix of the present active participle: `читающий`.
pub const ACTING: &'static str = "щ";

/// The suffix of the past passive participle: `читанный`.
pub const DONE: &'static str = "нн";

/// The present active participle's stem: the third person plural without its
/// `т`, and `щ`.
pub open spec fn acting_of(infinitive: Seq<char>) -> Option<Seq<char>> {
    let third = VerbForm::Present { person: Person::Third, number: Number::Plural };
    match written_of(infinitive, third, false) {
        None => None,
        Some(held) => match without_suffix(held, "т"@) {
            Some(bare) => Some(bare + ACTING@),
            None => None,
        },
    }
}

/// The past active participle's stem: the past stem and `вш` or `ш`.
pub open spec fn acted_of(infinitive: Seq<char>) -> Option<Seq<char>> {
    match past_of(infinitive) {
        None => None,
        Some(stem) => Some(
            stem + if stem.len() > 0 && is_vowel(stem.last()) {
                AFTER_VOWEL@
            } else {
                AFTER_CONSONANT@
            },
        ),
    }
}

/// The present passive participle's stem: the first person plural.
pub open spec fn borne_of(infinitive: Seq<char>) -> Option<Seq<char>> {
    written_of(infinitive, VerbForm::Present { person: Person::First, number: Number::Plural }, false)
}

/// The past passive participle's stem: the past stem of a verb in `-ать` or
/// `-ять`, and `нн`.
pub open spec fn done_of(infinitive: Seq<char>) -> Option<Seq<char>> {
    if !(ends_with(infinitive, "ать"@) || ends_with(infinitive, "ять"@)) {
        None
    } else {
        match past_of(infinitive) {
            Some(stem) => Some(stem + DONE@),
            None => None,
        }
    }
}

/// The stem of a participle of a voice and tense.
pub open spec fn participle_stem(infinitive: Seq<char>, voice: Voice, tense: Tense) -> Option<Seq<char>> {
    match (voice, tense) {
        (Voice::Active, Tense::Present) => acting_of(infinitive),
        (Voice::Active, Tense::Past) => acted_of(infinitive),
        (Voice::Passive, Tense::Present) => borne_of(infinitive),
        (Voice::Passive, Tense::Past) => done_of(infinitive),
        _ => None,
    }
}

/// The dictionary form of a participle.
pub open spec fn dictionary_of(infinitive: Seq<char>, voice: Voice, tense: Tense) -> Option<Seq<char>> {
    match participle_stem(infinitive, voice, tense) {
        Some(stem) => Some(stem + fitted_of(stem, NOMINATIVE@, false)),
        None => None,
    }
}

/// Writes the dictionary form of a participle: `читать` — `читающий`,
/// `читавший`, `читаемый`, `читанный`. A participle whose stem the rules do
/// not reach is refused.
pub fn dictionary(infinitive: &str, voice: Voice, tense: Tense) -> (res: Option<String>)
    ensures
        seen(res) == dictionary_of(infinitive@, voice, tense),
{
    let stem = match stem(infinitive, voice, tense) {
        Some(stem) => stem,
        None => return None,
    };
    let ending = fitted(stem.as_str(), NOMINATIVE, false);
    Some(joined(stem.as_str(), ending.as_str()))
}

/// The participle's stem.
fn stem(infinitive: &str, voice: Voice, tense: Tense) -> (res: Option<String>)
    ensures
        seen(res) == participle_stem(infinitive@, voice, tense),
{
    match (voice, tense) {
        (Voice::Active, Tense::Present) => acting(infinitive),
        (Voice::Active, Tense::Past) => acted(infinitive),
        (Voice::Passive, Tense::Present) => borne(infinitive),
        (Voice::Passive, Tense::Past) => done(infinitive),
        _ => None,
    }
}

/// The present active stem.
fn acting(infinitive: &str) -> (res: Option<String>)
    ensures
        seen(res) == acting_of(infinitive@),
{
    let third = VerbForm::Present { person: Person::Third, number: Number::Plural };
    let held = match inflect::written(infinitive, third, false) {
        Some(held) => held,
        None => return None,
    };
    match strip_suffix(held.as_str(), "т") {
        Some(bare) => Some(joined(bare, ACTING)),
        None => None,
    }
}

/// The past active stem.
fn acted(infinitive: &str) -> (res: Option<String>)
    ensures
        seen(res) == acted_of(infinitive@),
{
    let stem = match stems::past(infinitive) {
        Some(stem) => stem,
        None => return None,
    };
    let n = stem.as_str().unicode_len();
    let suffix = if n > 0 && is_vowel(stem.as_str().get_char(n - 1)) {
        AFTER_VOWEL
    } else {
        AFTER_CONSONANT
    };
    Some(joined(stem.as_str(), suffix))
}

/// The present passive stem.
fn borne(infinitive: &str) -> (res: Option<String>)
    ensures
        seen(res) == borne_of(infinitive@),
{
    inflect::written(infinitive, VerbForm::Present { person: Person::First, number: Number::Plural }, false)
}

/// The past passive stem.
fn done(infinitive: &str) -> (res: Option<String>)
    ensures
        seen(res) == done_of(infinitive@),
{
    if !(ends_with_str(infinitive, "ать") || ends_with_str(infinitive, "ять")) {
        return None;
    }
    match stems::past(infinitive) {
        Some(stem) => Some(joined(stem.as_str(), DONE)),
        None => None,
    }
}

} // verus!
