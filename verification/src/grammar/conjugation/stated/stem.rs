//! The present stem a verb's index states: the class numbered in it says how
//! the stem is got from the infinitive, and what needs the dictionary's own
//! note is refused.

use vstd::prelude::*;

use crate::alphabet::is_vowel;
use crate::grammar::conjugation::class::Class;
use crate::grammar::conjugation::index::kind::Kind;
use crate::grammar::conjugation::index::VerbIndex;
use crate::grammar::conjugation::stems::{self, first_person_of, past_of, present_of};
use crate::grammar::conjugation::{listed, listed_in};
use crate::text::{joined, joined3, owned, push_letter, seen, strip_suffix, without_suffix};

verus! {

/// The verb of the tenth class that trades its vowel: `молоть — мелю`.
pub const MILLED: [&'static str; 1] = ["молоть"];

/// The verb of the twelfth class on `по-`: `петь — пою`.
pub const SUNG: [&'static str; 1] = ["петь"];

/// The verb of the twelfth class on `бре-`: `брить — брею`.
pub const SHAVED: [&'static str; 1] = ["брить"];

/// The verb of the twelfth class on `гре-`: `греть — грею`.
pub const WARMED: [&'static str; 1] = ["греть"];

/// An infinitive with its tail traded for a letter.
pub open spec fn grown_of(infinitive: Seq<char>, tail: Seq<char>, letter: char) -> Option<Seq<char>> {
    match without_suffix(infinitive, tail) {
        Some(head) => Some(head.push(letter)),
        None => None,
    }
}

/// The sixth class: the bare stem with the glide after a vowel, swapped or
/// grown after a consonant.
pub open spec fn sixth_of(infinitive: Seq<char>) -> Option<Seq<char>> {
    match present_of(infinitive, Class::Bare) {
        None => None,
        Some(bare) => if bare.len() > 0 && is_vowel(bare.last()) {
            Some(bare.push('й'))
        } else {
            Some(first_person_of(bare, Class::Bare))
        },
    }
}

/// The seventh class, where the spelling shows the consonant: `-з-`.
pub open spec fn seventh_of(infinitive: Seq<char>) -> Option<Seq<char>> {
    match past_of(infinitive) {
        Some(held) => if held.len() > 0 && held.last() == 'з' {
            Some(held)
        } else {
            None
        },
        None => None,
    }
}

/// The tenth class, cut to the liquid; `молоть` trades its vowel too.
pub open spec fn tenth_of(infinitive: Seq<char>) -> Option<Seq<char>> {
    if listed_in(infinitive, MILLED@) {
        match without_suffix(infinitive, "олоть"@) {
            Some(head) => Some(head + "ел"@),
            None => None,
        }
    } else {
        without_suffix(infinitive, "оть"@)
    }
}

/// A twelfth-class root whose stem the table states, with the glide after it.
pub open spec fn rooted_of(infinitive: Seq<char>, verb: Seq<char>, stem: Seq<char>) -> Option<Seq<char>> {
    match without_suffix(infinitive, verb) {
        Some(head) => Some(head + stem + "й"@),
        None => None,
    }
}

/// The vowel a twelfth-class stem puts before its glide.
pub open spec fn traded(last: char) -> Option<char> {
    if last == 'ы' {
        Some('о')
    } else if last == 'у' || last == 'и' {
        Some(last)
    } else {
        None
    }
}

/// The twelfth class, trading the vowel before a glide.
pub open spec fn twelfth_of(infinitive: Seq<char>) -> Option<Seq<char>> {
    if listed_in(infinitive, SUNG@) {
        rooted_of(infinitive, "петь"@, "по"@)
    } else if listed_in(infinitive, SHAVED@) {
        rooted_of(infinitive, "брить"@, "бре"@)
    } else if listed_in(infinitive, WARMED@) {
        rooted_of(infinitive, "греть"@, "гре"@)
    } else {
        match past_of(infinitive) {
            None => None,
            Some(held) => if held.len() == 0 {
                None
            } else {
                match traded(held.last()) {
                    Some(vowel) => Some(held.drop_last().push(vowel).push('й')),
                    None => None,
                }
            },
        }
    }
}

/// The present stem an index states for a verb.
pub open spec fn stated_stem(infinitive: Seq<char>, index: VerbIndex) -> Option<Seq<char>> {
    if index.signs.fleeting || (index.signs.ringed && !(index.kind is Three)) {
        None
    } else {
        match index.kind {
            Kind::One => present_of(infinitive, Class::Glided),
            Kind::Two => present_of(infinitive, Class::Suffixed),
            Kind::Three => present_of(infinitive, Class::Dropped),
            Kind::Four => present_of(infinitive, Class::Bare),
            Kind::Five => present_of(infinitive, Class::Bare),
            Kind::Six => sixth_of(infinitive),
            Kind::Seven => seventh_of(infinitive),
            Kind::Nine => grown_of(infinitive, "ереть"@, 'р'),
            Kind::Ten => tenth_of(infinitive),
            Kind::Eleven => grown_of(infinitive, "ить"@, 'ь'),
            Kind::Twelve => twelfth_of(infinitive),
            Kind::Thirteen => grown_of(infinitive, "вать"@, 'й'),
            Kind::Fifteen => grown_of(infinitive, "ть"@, 'н'),
            Kind::Sixteen => grown_of(infinitive, "ть"@, 'в'),
            _ => None,
        }
    }
}

/// The present stem the index states: `тереть 9b — тр`, `давать 13b — дай`,
/// `жить 16b/c — жив`. A fleeting vowel, a ring off the third class, and the
/// classes whose stem is the dictionary's own note derive nothing.
pub fn present(infinitive: &str, index: VerbIndex) -> (res: Option<String>)
    ensures
        seen(res) == stated_stem(infinitive@, index),
{
    if index.signs.fleeting || (index.signs.ringed && !matches!(index.kind, Kind::Three)) {
        return None;
    }
    match index.kind {
        Kind::One => stems::present(infinitive, Class::Glided),
        Kind::Two => stems::present(infinitive, Class::Suffixed),
        Kind::Three => stems::present(infinitive, Class::Dropped),
        Kind::Four => stems::present(infinitive, Class::Bare),
        Kind::Five => stems::present(infinitive, Class::Bare),
        Kind::Six => sixth(infinitive),
        Kind::Seven => seventh(infinitive),
        Kind::Nine => grown(infinitive, "ереть", 'р'),
        Kind::Ten => tenth(infinitive),
        Kind::Eleven => grown(infinitive, "ить", 'ь'),
        Kind::Twelve => twelfth(infinitive),
        Kind::Thirteen => grown(infinitive, "вать", 'й'),
        Kind::Fifteen => grown(infinitive, "ть", 'н'),
        Kind::Sixteen => grown(infinitive, "ть", 'в'),
        _ => None,
    }
}

/// Trades the tail of an infinitive for a letter.
fn grown(infinitive: &str, tail: &str, letter: char) -> (res: Option<String>)
    ensures
        seen(res) == grown_of(infinitive@, tail@, letter),
{
    match strip_suffix(infinitive, tail) {
        Some(head) => {
            let mut held = owned(head);
            push_letter(&mut held, letter);
            Some(held)
        },
        None => None,
    }
}

/// The sixth class's stem.
fn sixth(infinitive: &str) -> (res: Option<String>)
    ensures
        seen(res) == sixth_of(infinitive@),
{
    let bare = match stems::present(infinitive, Class::Bare) {
        Some(bare) => bare,
        None => return None,
    };
    let n = bare.as_str().unicode_len();
    if n > 0 && is_vowel(bare.as_str().get_char(n - 1)) {
        let mut held = bare;
        push_letter(&mut held, 'й');
        return Some(held);
    }
    Some(stems::first_person(bare.as_str(), Class::Bare))
}

/// The seventh class's stem, where its spelling shows it.
fn seventh(infinitive: &str) -> (res: Option<String>)
    ensures
        seen(res) == seventh_of(infinitive@),
{
    match stems::past(infinitive) {
        Some(held) => {
            let n = held.as_str().unicode_len();
            if n > 0 && held.as_str().get_char(n - 1) == 'з' {
                Some(held)
            } else {
                None
            }
        },
        None => None,
    }
}

/// The tenth class's stem.
fn tenth(infinitive: &str) -> (res: Option<String>)
    ensures
        seen(res) == tenth_of(infinitive@),
{
    if listed(infinitive, &MILLED) {
        return match strip_suffix(infinitive, "олоть") {
            Some(head) => Some(joined(head, "ел")),
            None => None,
        };
    }
    match strip_suffix(infinitive, "оть") {
        Some(head) => Some(owned(head)),
        None => None,
    }
}

/// A twelfth-class root's stated stem.
fn rooted(infinitive: &str, verb: &str, stem: &str) -> (res: Option<String>)
    ensures
        seen(res) == rooted_of(infinitive@, verb@, stem@),
{
    match strip_suffix(infinitive, verb) {
        Some(head) => Some(joined3(head, stem, "й")),
        None => None,
    }
}

/// The twelfth class's stem.
fn twelfth(infinitive: &str) -> (res: Option<String>)
    ensures
        seen(res) == twelfth_of(infinitive@),
{
    if listed(infinitive, &SUNG) {
        return rooted(infinitive, "петь", "по");
    }
    if listed(infinitive, &SHAVED) {
        return rooted(infinitive, "брить", "бре");
    }
    if listed(infinitive, &WARMED) {
        return rooted(infinitive, "греть", "гре");
    }
    let held = match stems::past(infinitive) {
        Some(held) => held,
        None => return None,
    };
    let n = held.as_str().unicode_len();
    if n == 0 {
        return None;
    }
    let last = held.as_str().get_char(n - 1);
    let vowel = if last == 'ы' {
        'о'
    } else if last == 'у' || last == 'и' {
        last
    } else {
        return None;
    };
    let mut grown = owned(crate::text::drop_last(held.as_str()));
    push_letter(&mut grown, vowel);
    push_letter(&mut grown, 'й');
    Some(grown)
}

} // verus!
