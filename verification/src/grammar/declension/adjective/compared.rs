//! The synthetic comparative: `новее`, `тише`. The productive `-ее` goes on
//! the bare stem; a back consonant swaps and takes `-е`; whatever the rules
//! do not reach — a suppletive form, a dental, a suffix the comparative cuts
//! — is refused rather than fabricated.

use vstd::prelude::*;

use super::{parted, parted_of, relational, undotted};
use crate::alphabet::{is_back, is_consonant};
use crate::morphemics::alternation::{swapped, Kind};
use crate::text::{among, drop_last, ends_with, folded, is_among, joined, owned, push_letter, seen};

verus! {

/// The adjectives whose comparative is another word: `лучше`, `хуже`.
pub const SUPPLETIVE: [&'static str; 5] = ["хороший", "плохой", "большой", "малый", "маленький"];

/// The adjectives whose comparative the grammar lists on another suffix:
/// `дальше`, `дольше`, `тоньше`.
pub const SUFFIXED: [&'static str; 7] = [
    "далёкий", "долгий", "тонкий", "старый", "ранний", "глубокий", "дешёвый",
];

/// Reports whether a consonant alternates before the comparative in a way
/// the rules here do not write: the dentals `д`, `т`, `з`, `с`.
#[verifier::allow_in_spec]
pub fn alternating(letter: char) -> bool
    returns
        letter == 'д' || letter == 'т' || letter == 'з' || letter == 'с',
{
    letter == 'д' || letter == 'т' || letter == 'з' || letter == 'с'
}

/// The comparative of a base closing on a back consonant: the consonant
/// swapped and `-е`; a `к` after a vowel, a dental or `л` is a suffix the
/// comparative cuts, and is refused.
pub open spec fn backed_of(base: Seq<char>, last: char) -> Option<Seq<char>> {
    let held = base.drop_last();
    if last == 'к' && (held.len() == 0 || !is_consonant(held.last()) || alternating(held.last())
        || held.last() == 'л') {
        None
    } else {
        Some(held.push(swapped(last, Kind::Velar)).push('е'))
    }
}

/// The synthetic comparative of an adjective.
pub open spec fn compared_of(dictionary: Seq<char>) -> Option<Seq<char>> {
    if among(dictionary, SUPPLETIVE@) || among(dictionary, SUFFIXED@) {
        None
    } else {
        match parted_of(dictionary) {
            None => None,
            Some((raw, _)) => if ends_with(raw, "ск"@) {
                None
            } else {
                let base = folded(raw);
                if base.len() == 0 {
                    None
                } else if alternating(base.last()) {
                    None
                } else if is_back(base.last()) {
                    backed_of(base, base.last())
                } else {
                    Some(base + "ее"@)
                }
            },
        }
    }
}

/// Writes the synthetic comparative: `новый` — `новее`, `громкий` —
/// `громче`, `зелёный` — `зеленее`.
pub fn written(dictionary: &str) -> (res: Option<String>)
    ensures
        seen(res) == compared_of(dictionary@),
{
    if is_among(dictionary, &SUPPLETIVE) || is_among(dictionary, &SUFFIXED) {
        return None;
    }
    let (raw, _) = match parted(dictionary) {
        Some(held) => held,
        None => return None,
    };
    if relational(raw.as_str()) {
        return None;
    }
    let base = undotted(raw.as_str());
    let n = base.as_str().unicode_len();
    if n == 0 {
        return None;
    }
    let last = base.as_str().get_char(n - 1);
    if alternating(last) {
        return None;
    }
    if is_back(last) {
        return backed(base.as_str(), last);
    }
    Some(joined(base.as_str(), "ее"))
}

/// The comparative of a base closing on a back consonant.
fn backed(base: &str, last: char) -> (res: Option<String>)
    requires
        base@.len() > 0,
    ensures
        seen(res) == backed_of(base@, last),
{
    let head = drop_last(base);
    if last == 'к' {
        let m = head.unicode_len();
        if m == 0 {
            return None;
        }
        let before = head.get_char(m - 1);
        if !is_consonant(before) || alternating(before) || before == 'л' {
            return None;
        }
    }
    let mut held = owned(head);
    push_letter(&mut held, swapped(last, Kind::Velar));
    push_letter(&mut held, 'е');
    Some(held)
}

} // verus!
