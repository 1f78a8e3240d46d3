//! The consonant alternations at the end of a stem: the swap a present stem
//! or a comparative makes before its ending, the `л` a labial takes, and the
//! clusters `ск` and `ст` that fuse into `щ`.

use vstd::prelude::*;

use crate::text::{ends_with, ends_with_str, head_of, owned};

verus! {

/// Which alternation a stem undergoes.
#[derive(Debug, Clone, Copy, PartialEq, Eq, Hash, Structural)]
pub enum Kind {
    /// Before the endings of the present: `писать — пишу`, `водить — вожу`.
    Present,
    /// A back consonant before the `-е` of a comparative: `тихий — тише`.
    Velar,
}

/// The letter a labial takes after it where a consonant would swap:
/// `любить — люблю`.
pub const EPENTHESIS: char = 'л';

/// Reports whether a consonant takes the epenthetic `л` rather than swapping:
/// the labials `б`, `п`, `в`, `ф`, `м`.
#[verifier::allow_in_spec]
pub fn takes_epenthesis(letter: char) -> bool
    returns
        letter == 'б' || letter == 'п' || letter == 'в' || letter == 'ф' || letter == 'м',
{
    letter == 'б' || letter == 'п' || letter == 'в' || letter == 'ф' || letter == 'м'
}

/// The consonant a letter swaps to: the dentals and the back consonants to
/// the sibilants in the present, the back consonants alone before a
/// comparative. Every other letter stays.
#[verifier::allow_in_spec]
pub fn swapped(letter: char, kind: Kind) -> char
    returns
        if letter == 'к' {
            'ч'
        } else if letter == 'г' {
            'ж'
        } else if letter == 'х' {
            'ш'
        } else if kind is Present && letter == 'д' {
            'ж'
        } else if kind is Present && letter == 'т' {
            'ч'
        } else if kind is Present && letter == 'з' {
            'ж'
        } else if kind is Present && letter == 'с' {
            'ш'
        } else {
            letter
        },
{
    if letter == 'к' {
        'ч'
    } else if letter == 'г' {
        'ж'
    } else if letter == 'х' {
        'ш'
    } else if matches!(kind, Kind::Present) && letter == 'д' {
        'ж'
    } else if matches!(kind, Kind::Present) && letter == 'т' {
        'ч'
    } else if matches!(kind, Kind::Present) && letter == 'з' {
        'ж'
    } else if matches!(kind, Kind::Present) && letter == 'с' {
        'ш'
    } else {
        letter
    }
}

/// A stem whose closing `ск` or `ст` fuses into `щ`.
pub open spec fn clustered_of(stem: Seq<char>) -> Option<Seq<char>> {
    if ends_with(stem, "ск"@) || ends_with(stem, "ст"@) {
        Some(stem.subrange(0, stem.len() - 2).push('щ'))
    } else {
        None
    }
}

/// The stem with its closing `ск` or `ст` fused into `щ`: `иск — ищ`,
/// `хлест — хлещ`. Absent for a stem that closes on neither.
pub fn clustered(stem: &str) -> (res: Option<String>)
    ensures
        crate::text::seen(res) == clustered_of(stem@),
{
    proof {
        reveal_strlit("ск");
        reveal_strlit("ст");
    }
    if !(ends_with_str(stem, "ск") || ends_with_str(stem, "ст")) {
        return None;
    }
    let n = stem.unicode_len();
    let mut held = owned(head_of(stem, n - 2));
    crate::text::push_letter(&mut held, 'щ');
    Some(held)
}

} // verus!
