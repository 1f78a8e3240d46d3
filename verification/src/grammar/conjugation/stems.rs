//! The two stems of a verb: the past stem, which is the infinitive without
//! its ending, and the present stem, which the class builds from it.

use vstd::prelude::*;

use super::class::Class;
use crate::alphabet::is_vowel;
use crate::grammar::declension::spelling::{fitted, fitted_of};
use crate::morphemics::alternation::{clustered, clustered_of, swapped, takes_epenthesis, Kind, EPENTHESIS};
use crate::text::{drop_last, ends_with, joined, owned, push_letter, seen, strip_suffix, without_suffix};

verus! {

/// The infinitive without its ending, absent for a word that has none.
pub open spec fn past_of(infinitive: Seq<char>) -> Option<Seq<char>> {
    if ends_with(infinitive, "ться"@) {
        without_suffix(infinitive, "ться"@)
    } else if ends_with(infinitive, "ть"@) {
        without_suffix(infinitive, "ть"@)
    } else if ends_with(infinitive, "тись"@) {
        without_suffix(infinitive, "тись"@)
    } else if ends_with(infinitive, "ти"@) {
        without_suffix(infinitive, "ти"@)
    } else if ends_with(infinitive, "чься"@) {
        without_suffix(infinitive, "чься"@)
    } else {
        without_suffix(infinitive, "чь"@)
    }
}

/// The past stem: the infinitive without `-ть`, `-ти` or `-чь`, with the
/// particle if it carries one. `читать — чита`, `нести — нес`.
pub fn past(infinitive: &str) -> (res: Option<String>)
    ensures
        seen(res) == past_of(infinitive@),
{
    match strip_suffix(infinitive, "ться") {
        Some(stem) => return Some(owned(stem)),
        None => {},
    }
    match strip_suffix(infinitive, "ть") {
        Some(stem) => return Some(owned(stem)),
        None => {},
    }
    match strip_suffix(infinitive, "тись") {
        Some(stem) => return Some(owned(stem)),
        None => {},
    }
    match strip_suffix(infinitive, "ти") {
        Some(stem) => return Some(owned(stem)),
        None => {},
    }
    match strip_suffix(infinitive, "чься") {
        Some(stem) => return Some(owned(stem)),
        None => {},
    }
    match strip_suffix(infinitive, "чь") {
        Some(stem) => Some(owned(stem)),
        None => None,
    }
}

/// A past stem with its closing vowel dropped, if it closes on one.
pub open spec fn cut_vowel_of(stem: Seq<char>) -> Option<Seq<char>> {
    if stem.len() == 0 {
        None
    } else if !is_vowel(stem.last()) {
        Some(stem)
    } else {
        Some(stem.drop_last())
    }
}

/// A stem with its last consonant swapped, or its closing cluster fused.
pub open spec fn swap_last_of(stem: Seq<char>) -> Seq<char> {
    match clustered_of(stem) {
        Some(held) => held,
        None => if stem.len() == 0 {
            stem
        } else {
            stem.drop_last().push(swapped(stem.last(), Kind::Present))
        },
    }
}

/// A suffixed past stem with `-ова-` or `-ева-` traded for `-у-` or `-ю-`.
pub open spec fn suffixed_of(stem: Seq<char>) -> Option<Seq<char>> {
    if ends_with(stem, "ова"@) {
        Some(stem.subrange(0, stem.len() - 3) + "у"@)
    } else if ends_with(stem, "ева"@) {
        let head = stem.subrange(0, stem.len() - 3);
        Some(head + fitted_of(head, "ю"@, false))
    } else {
        None
    }
}

/// The present stem a class builds from the infinitive.
pub open spec fn present_of(infinitive: Seq<char>, class: Class) -> Option<Seq<char>> {
    match past_of(infinitive) {
        None => None,
        Some(stem) => match class {
            Class::Glided => Some(stem.push('й')),
            Class::Suffixed => suffixed_of(stem),
            Class::Dropped => without_suffix(stem, "у"@),
            Class::Bare => cut_vowel_of(stem),
            Class::Swapped => match cut_vowel_of(stem) {
                Some(held) => Some(swap_last_of(held)),
                None => None,
            },
            Class::Consonantal => Some(stem),
            Class::Listed => None,
        },
    }
}

/// The present stem of a verb of a class: `читать — читай`, `рисовать —
/// рису`, `крикнуть — крикн`, `любить — люб`, `писать — пиш`, `нести — нес`.
/// A listed verb has none to derive.
pub fn present(infinitive: &str, class: Class) -> (res: Option<String>)
    ensures
        seen(res) == present_of(infinitive@, class),
{
    let stem = match past(infinitive) {
        Some(stem) => stem,
        None => return None,
    };
    match class {
        Class::Glided => {
            let mut held = stem;
            push_letter(&mut held, 'й');
            Some(held)
        },
        Class::Suffixed => suffixed(stem.as_str()),
        Class::Dropped => match strip_suffix(stem.as_str(), "у") {
            Some(head) => Some(owned(head)),
            None => None,
        },
        Class::Bare => cut_vowel(stem.as_str()),
        Class::Swapped => match cut_vowel(stem.as_str()) {
            Some(held) => Some(swap_last(held.as_str())),
            None => None,
        },
        Class::Consonantal => Some(stem),
        Class::Listed => None,
    }
}

/// The stem of the first person singular under its class.
pub open spec fn first_person_of(present_stem: Seq<char>, class: Class) -> Seq<char> {
    if !(class is Bare) || present_stem.len() == 0 {
        present_stem
    } else if takes_epenthesis(present_stem.last()) {
        present_stem.push(EPENTHESIS)
    } else {
        swap_last_of(present_stem)
    }
}

/// The stem of the first person singular. A bare verb takes `л` after a
/// labial — `любить — люблю` — and swaps any other consonant — `водить —
/// вожу`; every other class keeps its present stem.
pub fn first_person(present_stem: &str, class: Class) -> (res: String)
    ensures
        res@ == first_person_of(present_stem@, class),
{
    if !matches!(class, Class::Bare) {
        return owned(present_stem);
    }
    let n = present_stem.unicode_len();
    if n == 0 {
        return owned(present_stem);
    }
    let last = present_stem.get_char(n - 1);
    if takes_epenthesis(last) {
        let mut held = owned(present_stem);
        push_letter(&mut held, EPENTHESIS);
        return held;
    }
    swap_last(present_stem)
}

/// Trades `-ова-` for `-у-` and `-ева-` for `-ю-`, spelled after its stem.
fn suffixed(stem: &str) -> (res: Option<String>)
    ensures
        seen(res) == suffixed_of(stem@),
{
    proof {
        reveal_strlit("ова");
        reveal_strlit("ева");
    }
    match strip_suffix(stem, "ова") {
        Some(head) => return Some(joined(head, "у")),
        None => {},
    }
    match strip_suffix(stem, "ева") {
        Some(head) => {
            let ending = fitted(head, "ю", false);
            Some(joined(head, ending.as_str()))
        },
        None => None,
    }
}

/// Drops the vowel a past stem closes on.
fn cut_vowel(stem: &str) -> (res: Option<String>)
    ensures
        seen(res) == cut_vowel_of(stem@),
{
    let n = stem.unicode_len();
    if n == 0 {
        return None;
    }
    if !is_vowel(stem.get_char(n - 1)) {
        return Some(owned(stem));
    }
    Some(owned(drop_last(stem)))
}

/// Swaps the last consonant of a stem, or fuses its closing cluster.
fn swap_last(stem: &str) -> (res: String)
    ensures
        res@ == swap_last_of(stem@),
{
    match clustered(stem) {
        Some(held) => return held,
        None => {},
    }
    let n = stem.unicode_len();
    if n == 0 {
        return owned(stem);
    }
    let last = stem.get_char(n - 1);
    let mut held = owned(drop_last(stem));
    push_letter(&mut held, swapped(last, Kind::Present));
    held
}

} // verus!
