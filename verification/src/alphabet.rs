//! The letters of the Russian alphabet, as the paradigms ask about them.
//!
//! Every rule that bends an ending asks the same few questions of the letter
//! before it: is it a vowel, is it a consonant, is it a sibilant, is it a back
//! consonant, does it carry its softness in itself. They are answered here,
//! once, over the lower-case letters the paradigms write.

use vstd::prelude::*;

verus! {

/// Reports whether a letter is a vowel.
#[verifier::allow_in_spec]
pub fn is_vowel(c: char) -> bool
    returns
        c == 'а' || c == 'е' || c == 'ё' || c == 'и' || c == 'о' || c == 'у' || c == 'ы'
            || c == 'э' || c == 'ю' || c == 'я',
{
    c == 'а' || c == 'е' || c == 'ё' || c == 'и' || c == 'о' || c == 'у' || c == 'ы' || c == 'э'
        || c == 'ю' || c == 'я'
}

/// Reports whether a letter is a consonant, the glide `й` among them.
#[verifier::allow_in_spec]
pub fn is_consonant(c: char) -> bool
    returns
        c == 'б' || c == 'в' || c == 'г' || c == 'д' || c == 'ж' || c == 'з' || c == 'й'
            || c == 'к' || c == 'л' || c == 'м' || c == 'н' || c == 'п' || c == 'р' || c == 'с'
            || c == 'т' || c == 'ф' || c == 'х' || c == 'ц' || c == 'ч' || c == 'ш' || c == 'щ',
{
    c == 'б' || c == 'в' || c == 'г' || c == 'д' || c == 'ж' || c == 'з' || c == 'й' || c == 'к'
        || c == 'л' || c == 'м' || c == 'н' || c == 'п' || c == 'р' || c == 'с' || c == 'т'
        || c == 'ф' || c == 'х' || c == 'ц' || c == 'ч' || c == 'ш' || c == 'щ'
}

/// Reports whether a letter is a sibilant: `ж`, `ш`, `ч`, `щ`.
#[verifier::allow_in_spec]
pub fn is_sibilant(c: char) -> bool
    returns
        c == 'ж' || c == 'ш' || c == 'ч' || c == 'щ',
{
    c == 'ж' || c == 'ш' || c == 'ч' || c == 'щ'
}

/// Reports whether a letter is a back consonant: `г`, `к`, `х`.
#[verifier::allow_in_spec]
pub fn is_back(c: char) -> bool
    returns
        c == 'г' || c == 'к' || c == 'х',
{
    c == 'г' || c == 'к' || c == 'х'
}

/// Reports whether a consonant refuses `ы` after it: the sibilants and the
/// back consonants, § 1 and § 2 of the 1956 code.
#[verifier::allow_in_spec]
pub fn bars_yi(c: char) -> bool
    returns
        is_sibilant(c) || is_back(c),
{
    is_sibilant(c) || is_back(c)
}

/// Reports whether a consonant is soft wherever it stands: `ч`, `щ`, `й`.
#[verifier::allow_in_spec]
pub fn always_soft(c: char) -> bool
    returns
        c == 'ч' || c == 'щ' || c == 'й',
{
    c == 'ч' || c == 'щ' || c == 'й'
}

/// Reports whether a letter is written to state that the consonant before it
/// is soft: the soft vowels and the soft sign.
#[verifier::allow_in_spec]
pub fn softens(c: char) -> bool
    returns
        c == 'я' || c == 'е' || c == 'ё' || c == 'ю' || c == 'и' || c == 'ь',
{
    c == 'я' || c == 'е' || c == 'ё' || c == 'ю' || c == 'и' || c == 'ь'
}

} // verus!
