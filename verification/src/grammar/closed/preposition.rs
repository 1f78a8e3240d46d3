//! The prepositions and the cases each hands out to the word it governs.

use vstd::prelude::*;

use crate::grammar::case::Case;
use crate::text::{among, is_among};

verus! {

/// The prepositions that govern the genitive alone.
pub const GENITIVE_ONLY: [&'static str; 17] = [
    "без", "безо", "для", "до", "из", "изо", "кроме", "от", "ото", "у", "около", "после", "против",
    "вокруг", "среди", "ради", "возле",
];

/// The prepositions that govern the dative alone.
pub const DATIVE_ONLY: [&'static str; 5] = ["к", "ко", "благодаря", "вопреки", "согласно"];

/// The prepositions that govern the accusative alone.
pub const ACCUSATIVE_ONLY: [&'static str; 3] = ["про", "сквозь", "через"];

/// The prepositions that govern the instrumental alone.
pub const INSTRUMENTAL_ONLY: [&'static str; 5] = ["над", "надо", "перед", "передо", "между"];

/// The prepositions that govern the prepositional alone.
pub const PREPOSITIONAL_ONLY: [&'static str; 1] = ["при"];

/// The prepositions of place and direction: the accusative or the
/// prepositional.
pub const ACCUSATIVE_OR_PREPOSITIONAL: [&'static str; 6] = ["в", "во", "на", "о", "об", "обо"];

/// The prepositions that take the accusative or the instrumental.
pub const ACCUSATIVE_OR_INSTRUMENTAL: [&'static str; 3] = ["за", "под", "подо"];

/// The prepositions that take the dative, the accusative or the
/// prepositional.
pub const DATIVE_ACCUSATIVE_OR_PREPOSITIONAL: [&'static str; 1] = ["по"];

/// The prepositions that take the genitive, the accusative or the
/// instrumental.
pub const GENITIVE_ACCUSATIVE_OR_INSTRUMENTAL: [&'static str; 2] = ["с", "со"];

/// The genitive.
pub const GENITIVE: [Case; 1] = [Case::Genitive];

/// The dative.
pub const DATIVE: [Case; 1] = [Case::Dative];

/// The accusative.
pub const ACCUSATIVE: [Case; 1] = [Case::Accusative];

/// The instrumental.
pub const INSTRUMENTAL: [Case; 1] = [Case::Instrumental];

/// The prepositional.
pub const PREPOSITIONAL: [Case; 1] = [Case::Prepositional];

/// The accusative and the prepositional.
pub const PLACE: [Case; 2] = [Case::Accusative, Case::Prepositional];

/// The accusative and the instrumental.
pub const BEHIND: [Case; 2] = [Case::Accusative, Case::Instrumental];

/// The dative, the accusative and the prepositional.
pub const ALONG: [Case; 3] = [Case::Dative, Case::Accusative, Case::Prepositional];

/// The genitive, the accusative and the instrumental.
pub const WITH: [Case; 3] = [Case::Genitive, Case::Accusative, Case::Instrumental];

/// No case at all.
pub const NONE: [Case; 0] = [];

/// The cases a word hands out as a preposition, none for a word that is no
/// preposition.
pub open spec fn governs_of(written: Seq<char>) -> Seq<Case> {
    if among(written, GENITIVE_ONLY@) {
        GENITIVE@
    } else if among(written, DATIVE_ONLY@) {
        DATIVE@
    } else if among(written, ACCUSATIVE_ONLY@) {
        ACCUSATIVE@
    } else if among(written, INSTRUMENTAL_ONLY@) {
        INSTRUMENTAL@
    } else if among(written, PREPOSITIONAL_ONLY@) {
        PREPOSITIONAL@
    } else if among(written, ACCUSATIVE_OR_PREPOSITIONAL@) {
        PLACE@
    } else if among(written, ACCUSATIVE_OR_INSTRUMENTAL@) {
        BEHIND@
    } else if among(written, DATIVE_ACCUSATIVE_OR_PREPOSITIONAL@) {
        ALONG@
    } else if among(written, GENITIVE_ACCUSATIVE_OR_INSTRUMENTAL@) {
        WITH@
    } else {
        NONE@
    }
}

/// The cases a preposition hands out: `в` — the accusative and the
/// prepositional, `от` — the genitive. A word that is no preposition hands
/// out none.
pub fn governs(written: &str) -> (res: &'static [Case])
    ensures
        res@ == governs_of(written@),
{
    if is_among(written, &GENITIVE_ONLY) {
        &GENITIVE
    } else if is_among(written, &DATIVE_ONLY) {
        &DATIVE
    } else if is_among(written, &ACCUSATIVE_ONLY) {
        &ACCUSATIVE
    } else if is_among(written, &INSTRUMENTAL_ONLY) {
        &INSTRUMENTAL
    } else if is_among(written, &PREPOSITIONAL_ONLY) {
        &PREPOSITIONAL
    } else if is_among(written, &ACCUSATIVE_OR_PREPOSITIONAL) {
        &PLACE
    } else if is_among(written, &ACCUSATIVE_OR_INSTRUMENTAL) {
        &BEHIND
    } else if is_among(written, &DATIVE_ACCUSATIVE_OR_PREPOSITIONAL) {
        &ALONG
    } else if is_among(written, &GENITIVE_ACCUSATIVE_OR_INSTRUMENTAL) {
        &WITH
    } else {
        &NONE
    }
}

/// Reports whether a preposition admits a case.
pub fn admits(written: &str, case: Case) -> (res: bool)
    ensures
        res == governs_of(written@).contains(case),
{
    let held = governs(written);
    let mut i: usize = 0;
    while i < held.len()
        invariant
            i <= held@.len(),
            held@ == governs_of(written@),
            forall|k: int| 0 <= k < i ==> held@[k] != case,
        decreases held@.len() - i,
    {
        if held[i] == case {
            assert(held@[i as int] == case);
            return true;
        }
        i = i + 1;
    }
    false
}

} // verus!
