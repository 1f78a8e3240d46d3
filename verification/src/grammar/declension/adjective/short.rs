//! The short form of an adjective: the predicate's `нов`, `нова`, `ново`,
//! `новы`. Its masculine is the hard part — a bare base, a fleeting vowel
//! between the last two consonants, or nothing the rules can reach.

use vstd::prelude::*;

use super::{ending_stressed, parted, parted_of, relational, undotted};
use crate::alphabet::is_consonant;
use crate::grammar::declension::spelling::{bars_unstressed_o, fitted, fitted_of, parted as split, parted_of as split_of};
use crate::grammar::form::Bare;
use crate::grammar::gender::Gender;
use crate::grammar::stem::Stem;
use crate::text::{among, ends_with, folded, head_of, is_among, joined, owned, push_letter, seen};

verus! {

/// The adjectives whose short masculine the dictionary marks off the rule.
pub const EXCEPTED: [&'static str; 4] = ["полный", "солёный", "достойный", "недостойный"];

/// Whether a base closes on `н` or `к` after a consonant, which parts with a
/// fleeting vowel in the masculine: `красн — красен`.
pub open spec fn is_fleeting(base: Seq<char>) -> bool {
    base.len() >= 2 && (base.last() == 'н' || base.last() == 'к') && is_consonant(base[base.len() - 2])
}

/// A base that closes on `ьн` or `ьк`, whose soft sign yields to the vowel:
/// `горьк — горек`.
pub open spec fn unsigned_of(base: Seq<char>) -> Option<Seq<char>> {
    if base.len() >= 2 && (base.last() == 'н' || base.last() == 'к') && base[base.len() - 2] == 'ь' {
        Some(base.subrange(0, base.len() - 2).push('е').push(base.last()))
    } else {
        None
    }
}

/// Whether a base closes on two consonants, or a soft sign and a consonant,
/// that no rule here parts.
pub open spec fn is_closed(base: Seq<char>) -> bool {
    base.len() >= 2 && is_consonant(base.last()) && (is_consonant(base[base.len() - 2])
        || base[base.len() - 2] == 'ь')
}

/// The short masculine of a base.
pub open spec fn masculine_of(base: Seq<char>, shape: Stem, stressed: bool) -> Option<Seq<char>> {
    if is_fleeting(base) {
        Some(split_of(base, stressed))
    } else if unsigned_of(base) is Some {
        unsigned_of(base)
    } else if is_closed(base) {
        None
    } else if shape is Soft {
        Some(base.push('ь'))
    } else {
        Some(base)
    }
}

/// The short neuter: `-о` or `-е`, unstated after a sibilant off the ending
/// stress.
pub open spec fn neuter_of(base: Seq<char>, shape: Stem, stressed: bool) -> Option<Seq<char>> {
    if base.len() == 0 || (!stressed && bars_unstressed_o(base.last())) {
        None
    } else {
        let ending = if shape is Soft { "е"@ } else { "о"@ };
        Some(base + fitted_of(base, ending, stressed))
    }
}

/// The short form of an adjective in a cell.
pub open spec fn short_of(dictionary: Seq<char>, cell: Bare) -> Option<Seq<char>> {
    match parted_of(dictionary) {
        None => None,
        Some((raw, shape)) => if ends_with(raw, "ск"@) {
            None
        } else {
            let base = folded(raw);
            let stressed = ends_with(dictionary, "ой"@);
            match cell {
                Bare::Singular(Gender::Masculine) => if among(dictionary, EXCEPTED@) {
                    None
                } else {
                    masculine_of(base, shape, stressed)
                },
                Bare::Singular(Gender::Feminine) => Some(
                    base + fitted_of(base, if shape is Soft { "я"@ } else { "а"@ }, stressed),
                ),
                Bare::Singular(Gender::Neuter) => neuter_of(base, shape, stressed),
                Bare::Singular(Gender::Common) => None,
                Bare::Plural => Some(
                    base + fitted_of(base, if shape is Soft { "и"@ } else { "ы"@ }, stressed),
                ),
            }
        },
    }
}

/// Writes the short form of an adjective in a cell: `новый` — `нов`, `нова`,
/// `ново`, `новы`; `красный` — `красен`. A relational adjective has none, a
/// masculine the rules cannot reach is refused, and the common gender is no
/// cell of its own.
pub fn written(dictionary: &str, cell: Bare) -> (res: Option<String>)
    ensures
        seen(res) == short_of(dictionary@, cell),
{
    let (raw, shape) = match parted(dictionary) {
        Some(held) => held,
        None => return None,
    };
    if relational(raw.as_str()) {
        return None;
    }
    let base = undotted(raw.as_str());
    let stressed = ending_stressed(dictionary);
    proof {
        reveal_strlit("я");
        reveal_strlit("а");
        reveal_strlit("и");
        reveal_strlit("ы");
    }
    match cell {
        Bare::Singular(Gender::Masculine) => {
            if is_among(dictionary, &EXCEPTED) {
                return None;
            }
            masculine(base.as_str(), shape, stressed)
        },
        Bare::Singular(Gender::Feminine) => Some(
            attached(base.as_str(), if matches!(shape, Stem::Soft) { "я" } else { "а" }, stressed),
        ),
        Bare::Singular(Gender::Neuter) => neuter(base.as_str(), shape, stressed),
        Bare::Singular(Gender::Common) => None,
        Bare::Plural => Some(
            attached(base.as_str(), if matches!(shape, Stem::Soft) { "и" } else { "ы" }, stressed),
        ),
    }
}

/// A base with an ending spelled after it.
fn attached(base: &str, ending: &str, stressed: bool) -> (res: String)
    ensures
        res@ == base@ + fitted_of(base@, ending@, stressed),
{
    let spelled = fitted(base, ending, stressed);
    joined(base, spelled.as_str())
}

/// Reports whether a base parts with a fleeting vowel in the masculine.
pub fn fleeting(base: &str) -> (res: bool)
    ensures
        res == is_fleeting(base@),
{
    let n = base.unicode_len();
    if n < 2 {
        return false;
    }
    let last = base.get_char(n - 1);
    (last == 'н' || last == 'к') && is_consonant(base.get_char(n - 2))
}

/// The masculine of a base closing on `ьн` or `ьк`, its soft sign yielding
/// to the vowel: `горьк — горек`.
pub fn unsigned(base: &str) -> (res: Option<String>)
    ensures
        seen(res) == unsigned_of(base@),
{
    let n = base.unicode_len();
    if n < 2 {
        return None;
    }
    let last = base.get_char(n - 1);
    if !(last == 'н' || last == 'к') || base.get_char(n - 2) != 'ь' {
        return None;
    }
    let mut held = owned(head_of(base, n - 2));
    push_letter(&mut held, 'е');
    push_letter(&mut held, last);
    Some(held)
}

/// Reports whether two consonants, or a soft sign and a consonant, close a
/// base.
pub fn closed(base: &str) -> (res: bool)
    ensures
        res == is_closed(base@),
{
    let n = base.unicode_len();
    if n < 2 {
        return false;
    }
    let last = base.get_char(n - 1);
    let before = base.get_char(n - 2);
    is_consonant(last) && (is_consonant(before) || before == 'ь')
}

/// The short masculine.
fn masculine(base: &str, shape: Stem, stressed: bool) -> (res: Option<String>)
    ensures
        seen(res) == masculine_of(base@, shape, stressed),
{
    if fleeting(base) {
        return Some(split(base, stressed));
    }
    match unsigned(base) {
        Some(held) => return Some(held),
        None => {},
    }
    if closed(base) {
        return None;
    }
    if matches!(shape, Stem::Soft) {
        let mut held = owned(base);
        push_letter(&mut held, 'ь');
        return Some(held);
    }
    Some(owned(base))
}

/// The short neuter.
fn neuter(base: &str, shape: Stem, stressed: bool) -> (res: Option<String>)
    ensures
        seen(res) == neuter_of(base@, shape, stressed),
{
    let n = base.unicode_len();
    if n == 0 {
        return None;
    }
    if !stressed && bars_unstressed_o(base.get_char(n - 1)) {
        return None;
    }
    proof {
        reveal_strlit("е");
        reveal_strlit("о");
    }
    Some(attached(base, if matches!(shape, Stem::Soft) { "е" } else { "о" }, stressed))
}

} // verus!
