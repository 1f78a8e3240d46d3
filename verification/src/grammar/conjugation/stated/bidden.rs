//! The imperative as a verb's index states it: the glide after a vowel, and
//! after a consonant the ending the stress and the stem's shape choose, bent
//! by the second and the third numerals.

use vstd::prelude::*;

pub mod labial;

use self::labial::{is_soft, shed_of};
use super::stem::{self, stated_stem};
use crate::alphabet::is_vowel;
use crate::grammar::conjugation::imperative::{self, ending_of, Ending, PLURAL};
use crate::grammar::conjugation::index::circled::Reach;
use crate::grammar::conjugation::index::kind::Kind;
use crate::grammar::conjugation::index::scheme::Scheme;
use crate::grammar::conjugation::index::VerbIndex;
use crate::grammar::conjugation::stems::{self, past_of};
use crate::grammar::number::Number;
use crate::text::{joined, joined3, owned, push_letter, seen, strip_suffix, without_suffix};

verus! {

/// The singular and the plural of one imperative.
pub open spec fn pair_of(one: Seq<char>) -> (Seq<char>, Seq<char>) {
    (one, one + PLURAL@)
}

/// The eleventh class writes `-ей`: `бить — бей`.
pub open spec fn eleventh_of(infinitive: Seq<char>, index: VerbIndex) -> Option<(Seq<char>, Seq<char>)> {
    if index.signs.ringed {
        None
    } else {
        match without_suffix(infinitive, "ить"@) {
            Some(head) => Some(pair_of(head + "ей"@)),
            None => None,
        }
    }
}

/// The stem the imperative is built on: the thirteenth class keeps its
/// `-ва-`, every other class builds on its present stem.
pub open spec fn base_of(infinitive: Seq<char>, index: VerbIndex) -> Option<Seq<char>> {
    if index.kind is Thirteen {
        if index.signs.ringed || index.signs.fleeting {
            None
        } else {
            past_of(infinitive)
        }
    } else {
        stated_stem(infinitive, index)
    }
}

/// The imperative of a stem closed by a consonant.
pub open spec fn closed_of(infinitive: Seq<char>, held: Seq<char>, index: VerbIndex) -> (
    Seq<char>,
    Seq<char>,
) {
    if index.circled.imperative_split == Some(Reach::Whole) {
        (held + Ending::Vowel.written()@, held + Ending::SoftSign.written()@ + PLURAL@)
    } else {
        let stressed = index.present is B || index.present is C;
        let plain = ending_of(held, stressed);
        let ending = if plain is Vowel && (index.circled.imperative_soft == Some(Reach::Whole)
            || is_soft(infinitive, index)) {
            Ending::SoftSign
        } else {
            plain
        };
        let stem = if ending is SoftSign {
            shed_of(held, index)
        } else {
            held
        };
        pair_of(stem + ending.written()@)
    }
}

/// Both imperatives of a verb as the index states them.
pub open spec fn forms_of(infinitive: Seq<char>, index: VerbIndex) -> Option<(Seq<char>, Seq<char>)> {
    if index.kind is Eleven {
        eleventh_of(infinitive, index)
    } else {
        match base_of(infinitive, index) {
            None => None,
            Some(held) => if held.len() > 0 && held.last() == 'й' {
                Some(pair_of(held))
            } else if held.len() > 0 && is_vowel(held.last()) {
                Some(pair_of(held.push('й')))
            } else {
                Some(closed_of(infinitive, held, index))
            },
        }
    }
}

/// One imperative as the index states it.
pub open spec fn stated_imperative(infinitive: Seq<char>, index: VerbIndex, number: Number) -> Option<
    Seq<char>,
> {
    if index.present is CPrime || index.present is CDouble {
        None
    } else {
        match forms_of(infinitive, index) {
            None => None,
            Some((one, many)) => Some(
                match number {
                    Number::Singular => one,
                    Number::Plural => many,
                },
            ),
        }
    }
}

/// Writes one imperative.
pub fn written(infinitive: &str, index: VerbIndex, number: Number) -> (res: Option<String>)
    ensures
        seen(res) == stated_imperative(infinitive@, index, number),
{
    if matches!(index.present, Scheme::CPrime) || matches!(index.present, Scheme::CDouble) {
        return None;
    }
    let (one, many) = match forms(infinitive, index) {
        Some(held) => held,
        None => return None,
    };
    Some(
        match number {
            Number::Singular => one,
            Number::Plural => many,
        },
    )
}

/// Writes both imperatives.
fn forms(infinitive: &str, index: VerbIndex) -> (res: Option<(String, String)>)
    ensures
        match res {
            Some((one, many)) => forms_of(infinitive@, index) == Some((one@, many@)),
            None => forms_of(infinitive@, index) is None,
        },
{
    if matches!(index.kind, Kind::Eleven) {
        return eleventh(infinitive, index);
    }
    let held = match base(infinitive, index) {
        Some(held) => held,
        None => return None,
    };
    let n = held.as_str().unicode_len();
    if n > 0 && held.as_str().get_char(n - 1) == 'й' {
        return Some(pair(held));
    }
    if n > 0 && is_vowel(held.as_str().get_char(n - 1)) {
        let mut grown = held;
        push_letter(&mut grown, 'й');
        return Some(pair(grown));
    }
    Some(closed(infinitive, held, index))
}

/// The stem the imperative is built on.
fn base(infinitive: &str, index: VerbIndex) -> (res: Option<String>)
    ensures
        seen(res) == base_of(infinitive@, index),
{
    if matches!(index.kind, Kind::Thirteen) {
        if index.signs.ringed || index.signs.fleeting {
            return None;
        }
        return stems::past(infinitive);
    }
    stem::present(infinitive, index)
}

/// The eleventh class's imperatives.
fn eleventh(infinitive: &str, index: VerbIndex) -> (res: Option<(String, String)>)
    ensures
        match res {
            Some((one, many)) => eleventh_of(infinitive@, index) == Some((one@, many@)),
            None => eleventh_of(infinitive@, index) is None,
        },
{
    if index.signs.ringed {
        return None;
    }
    match strip_suffix(infinitive, "ить") {
        Some(head) => Some(pair(joined(head, "ей"))),
        None => None,
    }
}

/// The imperatives of a stem closed by a consonant.
fn closed(infinitive: &str, held: String, index: VerbIndex) -> (res: (String, String))
    ensures
        (res.0@, res.1@) == closed_of(infinitive@, held@, index),
{
    if matches!(index.circled.imperative_split, Some(Reach::Whole)) {
        let one = joined(held.as_str(), Ending::Vowel.written());
        let many = joined3(held.as_str(), Ending::SoftSign.written(), PLURAL);
        return (one, many);
    }
    let stressed = matches!(index.present, Scheme::B) || matches!(index.present, Scheme::C);
    let mut ending = imperative::of(held.as_str(), stressed);
    if matches!(ending, Ending::Vowel) && (matches!(index.circled.imperative_soft, Some(Reach::Whole))
        || labial::soft(infinitive, index)) {
        ending = Ending::SoftSign;
    }
    let stem = if matches!(ending, Ending::SoftSign) {
        labial::shed(held, index)
    } else {
        held
    };
    pair(joined(stem.as_str(), ending.written()))
}

/// The singular and the plural of one imperative.
fn pair(one: String) -> (res: (String, String))
    ensures
        (res.0@, res.1@) == pair_of(one@),
{
    let many = joined(one.as_str(), PLURAL);
    (one, many)
}

} // verus!
