//! The reflexive particle, `-ся` after a consonant and `-сь` after a vowel.

use vstd::prelude::*;

use crate::alphabet::is_vowel;
use crate::text::{ends_with, joined, last_char, last_of, owned, seen, strip_suffix, without_suffix};

verus! {

/// The particle after a vowel: `умывалась`.
pub const AFTER_VOWEL: &'static str = "сь";

/// The particle after a consonant: `умываться`.
pub const AFTER_CONSONANT: &'static str = "ся";

/// The particle a written form takes.
pub open spec fn particle_of(written: Seq<char>) -> &'static str {
    match last_of(written) {
        Some(last) => if is_vowel(last) {
            AFTER_VOWEL
        } else {
            AFTER_CONSONANT
        },
        None => AFTER_CONSONANT,
    }
}

/// The particle a written form takes: `сь` after a vowel, `ся` otherwise.
pub fn particle(written: &str) -> (res: &'static str)
    ensures
        res == particle_of(written@),
{
    match last_char(written) {
        Some(last) => if is_vowel(last) {
            AFTER_VOWEL
        } else {
            AFTER_CONSONANT
        },
        None => AFTER_CONSONANT,
    }
}

/// A written form with its particle attached.
pub fn attached(written: &str) -> (res: String)
    ensures
        res@ == written@ + particle_of(written@)@,
{
    joined(written, particle(written))
}

/// A reflexive infinitive without its particle: `ся` is taken off first,
/// then `сь`.
pub open spec fn bare_of(infinitive: Seq<char>) -> Option<Seq<char>> {
    if ends_with(infinitive, AFTER_CONSONANT@) {
        without_suffix(infinitive, AFTER_CONSONANT@)
    } else {
        without_suffix(infinitive, AFTER_VOWEL@)
    }
}

/// A reflexive infinitive without its particle, absent for a form that has
/// none.
pub fn bare(infinitive: &str) -> (res: Option<String>)
    ensures
        seen(res) == bare_of(infinitive@),
{
    match strip_suffix(infinitive, AFTER_CONSONANT) {
        Some(head) => Some(owned(head)),
        None => match strip_suffix(infinitive, AFTER_VOWEL) {
            Some(head) => Some(owned(head)),
            None => None,
        },
    }
}


/// Taking the particle off gives back the form it was attached to.
pub proof fn bare_undoes_attached(written: Seq<char>)
    ensures
        bare_of(written + particle_of(written)@) == Some(written),
{
    reveal_strlit("сь");
    reveal_strlit("ся");
    let whole = written + particle_of(written)@;
    assert(whole.subrange(0, whole.len() - 2) =~= written);
    assert(whole.subrange(whole.len() - 2, whole.len() as int) =~= particle_of(written)@);
}

/// Whether a letter is one of the ten vowel letters.
pub open spec fn vowel_letter(c: char) -> bool {
    c == 'а' || c == 'е' || c == 'ё' || c == 'и' || c == 'о' || c == 'у' || c == 'ы' || c == 'э'
        || c == 'ю' || c == 'я'
}

/// One rule and no exceptions: the particle is `-сь` after every vowel,
/// `-ся` after anything else — `училось`, `учился`, `учатся`.
pub proof fn the_particle_follows_the_last_letter(written: Seq<char>)
    ensures
        written.len() > 0 && vowel_letter(written.last()) ==> particle_of(written)@ == "сь"@,
        !(written.len() > 0 && vowel_letter(written.last())) ==> particle_of(written)@ == "ся"@,
        (written + particle_of(written)@).len() == written.len() + 2,
{
    reveal_strlit("сь");
    reveal_strlit("ся");
}

} // verus!
