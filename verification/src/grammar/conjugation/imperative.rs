//! The imperative, whose ending is read off the present stem and the stress.
//!
//! A stem in a vowel takes the glide: `читай`. A stem in a consonant takes
//! `-и` when the ending is stressed or two consonants close the stem — `неси`,
//! `помни` — and the soft sign otherwise: `брось`.

use vstd::prelude::*;

use crate::alphabet::is_vowel;
use crate::text::{last_char, last_of, second_last_char};

verus! {

/// The ending of the singular imperative.
#[derive(Debug, Clone, Copy, PartialEq, Eq, Hash, Structural)]
pub enum Ending {
    /// `-й`, after a vowel: `читай`, `дай`, `стой`.
    Glide,
    /// `-и`, when the ending carries the stress or two consonants close the
    /// stem: `иди`, `неси`, `помни`.
    Vowel,
    /// `-ь`, after a single consonant with the stress on the stem: `брось`,
    /// `готовь`, `встань`.
    SoftSign,
}

/// The ending appended to address more than one, or one politely.
pub const PLURAL: &'static str = "те";

impl Ending {
    /// How the ending is written.
    #[verifier::allow_in_spec]
    pub fn written(self) -> &'static str
        returns
            match self {
                Ending::Glide => "й",
                Ending::Vowel => "и",
                Ending::SoftSign => "ь",
            },
    {
        match self {
            Ending::Glide => "й",
            Ending::Vowel => "и",
            Ending::SoftSign => "ь",
        }
    }
}

/// Whether the last two letters of a stem are consonants, the soft sign not
/// counted as one.
pub open spec fn two_consonants_close(stem: Seq<char>) -> bool {
    stem.len() >= 2 && stem.last() != 'ь' && !is_vowel(stem.last()) && !is_vowel(
        stem[stem.len() - 2],
    )
}

/// Whether a stem settles its own imperative whatever the stress: it ends in
/// a vowel, in the glide, or in two consonants.
pub open spec fn is_settled(stem: Seq<char>) -> bool {
    stem.len() > 0 && (is_vowel(stem.last()) || stem.last() == 'й' || two_consonants_close(stem))
}

/// The imperative ending of a stem under a stress.
pub open spec fn ending_of(stem: Seq<char>, ending_stressed: bool) -> Ending {
    if stem.len() == 0 {
        Ending::Vowel
    } else if is_vowel(stem.last()) {
        Ending::Glide
    } else if ending_stressed || two_consonants_close(stem) {
        Ending::Vowel
    } else {
        Ending::SoftSign
    }
}

/// Reports whether the stem alone decides the imperative, so that the stress
/// need not be known.
pub fn settled(present_stem: &str) -> (res: bool)
    ensures
        res == is_settled(present_stem@),
{
    let last = match last_char(present_stem) {
        Some(last) => last,
        None => return false,
    };
    is_vowel(last) || last == 'й' || closed_by_two_consonants(present_stem)
}

/// The imperative ending a present stem takes, given whether the ending is
/// stressed.
pub fn of(present_stem: &str, ending_stressed: bool) -> (res: Ending)
    ensures
        res == ending_of(present_stem@, ending_stressed),
{
    let last = match last_char(present_stem) {
        Some(last) => last,
        None => return Ending::Vowel,
    };
    if is_vowel(last) {
        return Ending::Glide;
    }
    if ending_stressed || closed_by_two_consonants(present_stem) {
        return Ending::Vowel;
    }
    Ending::SoftSign
}

/// Reports whether two consonants close a stem.
fn closed_by_two_consonants(stem: &str) -> (res: bool)
    ensures
        res == two_consonants_close(stem@),
{
    match (last_char(stem), second_last_char(stem)) {
        (Some(last), Some(before)) => last != 'ь' && !is_vowel(last) && !is_vowel(before),
        _ => false,
    }
}


/// A settled stem needs no stress: a stem closing on a vowel or on two
/// consonants takes the same imperative ending under either stress. A stem
/// closing on the glide is left out: the writers take it as its own
/// imperative before asking.
pub proof fn a_settled_stem_needs_no_stress(stem: Seq<char>)
    requires
        is_settled(stem),
        stem.last() != 'й',
    ensures
        ending_of(stem, true) == ending_of(stem, false),
{
}

} // verus!
