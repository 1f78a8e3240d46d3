//! The stem a stated noun's endings go on: its lemma without the letter its
//! index says is an ending.

use vstd::prelude::*;

use crate::grammar::declension::index::{Index, Kind};
use crate::grammar::gender::Gender;
use crate::text::{head_of, owned, seen};

verus! {

/// How many letters of a lemma are its ending: one for a feminine, a neuter
/// or a common noun, and for a masculine on a soft stem, the glide, or the
/// third declension's `ь`; none for any other masculine.
#[verifier::allow_in_spec]
pub fn cut(gender: Gender, kind: Kind, last: char) -> usize
    returns
        if gender is Masculine {
            if kind is Soft || kind is Glide || kind is Iotated || (kind is Third && last == 'ь') {
                1usize
            } else {
                0usize
            }
        } else {
            1usize
        },
{
    match gender {
        Gender::Masculine => if matches!(kind, Kind::Soft) || matches!(kind, Kind::Glide) || matches!(
            kind,
            Kind::Iotated
        ) || (matches!(kind, Kind::Third) && last == 'ь') {
            1
        } else {
            0
        },
        _ => 1,
    }
}

/// A lemma's stem: without its last letter where that letter is an ending —
/// always for `-а` and `-я`.
pub open spec fn stem_of(lemma: Seq<char>, gender: Gender, index: Index) -> Option<Seq<char>> {
    if lemma.len() == 0 {
        None
    } else {
        let last = lemma.last();
        let cut = if last == 'а' || last == 'я' { 1 } else { cut(gender, index.kind, last) as int };
        Some(lemma.subrange(0, lemma.len() - cut))
    }
}

/// The stem of a stated noun: `стол` — `стол`, `конь` — `кон`, `жена` —
/// `жен`.
pub fn of(lemma: &str, gender: Gender, index: Index) -> (res: Option<String>)
    ensures
        seen(res) == stem_of(lemma@, gender, index),
{
    let n = lemma.unicode_len();
    if n == 0 {
        return None;
    }
    let last = lemma.get_char(n - 1);
    let cut = if last == 'а' || last == 'я' { 1 } else { cut(gender, index.kind, last) };
    Some(owned(head_of(lemma, n - cut)))
}

} // verus!
