//! The full adjective, declined from its dictionary form by the agreeing
//! table, and the short form and the comparative beside it.

pub mod compared;
pub mod short;

use vstd::prelude::*;

use super::attributive::{self, table_of};
use super::spelling::{bars_yi, fitted, fitted_of, fitting_bends_only_the_first_letter};
use crate::grammar::case::Case;
use crate::grammar::gender::{Animacy, Gender};
use crate::grammar::number::Number;
use crate::grammar::stem::Stem;
use crate::text::{ends_with, ends_with_str, folded, fold_letter, head_of, joined, owned, push_letter};

verus! {

/// A dictionary form split into its base and the shape of its stem: the base
/// is the word without its two-letter ending, the stem soft where the ending
/// opens on `и` after a letter that allows `ы`.
pub open spec fn parted_of(dictionary: Seq<char>) -> Option<(Seq<char>, Stem)> {
    if dictionary.len() < 3 {
        None
    } else {
        let kept = dictionary.len() - 2;
        let last = dictionary[kept - 1];
        let shape = if dictionary[kept] == 'и' && !bars_yi(last) {
            Stem::Soft
        } else {
            Stem::Hard
        };
        Some((dictionary.subrange(0, kept), shape))
    }
}

/// Splits a dictionary form into its base and the shape of its stem:
/// `новый` — `нов`, hard; `синий` — `син`, soft; `тихий` — `тих`, hard.
pub fn parted(dictionary: &str) -> (res: Option<(String, Stem)>)
    ensures
        match res {
            Some((base, shape)) => parted_of(dictionary@) == Some((base@, shape)),
            None => parted_of(dictionary@) is None,
        },
{
    let n = dictionary.unicode_len();
    if n < 3 {
        return None;
    }
    let kept = n - 2;
    let last = dictionary.get_char(kept - 1);
    let shape = if dictionary.get_char(kept) == 'и' && !bars_yi(last) {
        Stem::Soft
    } else {
        Stem::Hard
    };
    Some((owned(head_of(dictionary, kept)), shape))
}

/// Reports whether a dictionary form carries the stress on its ending:
/// `молодой`, against `новый`.
#[verifier::allow_in_spec]
pub fn ending_stressed(dictionary: &str) -> bool
    returns
        ends_with(dictionary@, "ой"@),
{
    ends_with_str(dictionary, "ой")
}

/// Reports whether a base is a relational adjective's, which forms neither a
/// short form nor a comparative: `русский`.
#[verifier::allow_in_spec]
pub fn relational(stem: &str) -> bool
    returns
        ends_with(stem@, "ск"@),
{
    ends_with_str(stem, "ск")
}

/// A base with its `ё` written `е`, as it is written off the stress.
pub fn undotted(base: &str) -> (res: String)
    ensures
        res@ == folded(base@),
{
    let n = base.unicode_len();
    let mut held = String::new();
    let mut i: usize = 0;
    while i < n
        invariant
            n == base@.len(),
            i <= n,
            held@ == folded(base@.subrange(0, i as int)),
        decreases n - i,
    {
        let c = base.get_char(i);
        push_letter(&mut held, if c == 'ё' { 'е' } else { c });
        proof {
            assert(base@.subrange(0, i as int + 1) =~= base@.subrange(0, i as int).push(base@[i as int]));
            assert(folded(base@.subrange(0, i as int + 1)) =~= folded(base@.subrange(0, i as int)).push(
                fold_letter(base@[i as int]),
            ));
        }
        i = i + 1;
    }
    assert(base@.subrange(0, n as int) =~= base@);
    held
}

/// A full adjective in a cell.
pub open spec fn written_of(
    dictionary: Seq<char>,
    case: Case,
    number: Number,
    gender: Gender,
    animacy: Animacy,
) -> Option<Seq<char>> {
    match parted_of(dictionary) {
        None => None,
        Some((base, shape)) => {
            let stressed = ends_with(dictionary, "ой"@);
            let ending = table_of(shape, gender, number, stressed).of(case, animacy);
            Some(base + fitted_of(base, ending@, stressed))
        },
    }
}

/// Writes a full adjective in the cell asked for: `новый` — `новой`,
/// `синий` — `синего`, `молодой` — `молодого`.
pub fn written(dictionary: &str, case: Case, number: Number, gender: Gender, animacy: Animacy) -> (res:
    Option<String>)
    ensures
        crate::text::seen(res) == written_of(dictionary@, case, number, gender, animacy),
{
    let (base, shape) = match parted(dictionary) {
        Some(held) => held,
        None => return None,
    };
    let stressed = ending_stressed(dictionary);
    let table = attributive::table(shape, gender, number, stressed);
    let ending = fitted(base.as_str(), table.of(case, animacy), stressed);
    Some(joined(base.as_str(), ending.as_str()))
}

/// The accusative of a masculine adjective, and of any in the plural, has no
/// form of its own: a living noun's is the genitive, a thing's the
/// nominative. `нового` for a man, `новый` for a table.
pub proof fn the_accusative_borrows_its_form(dictionary: Seq<char>, number: Number, gender: Gender)
    requires
        number is Plural || !(gender is Feminine || gender is Neuter),
    ensures
        written_of(dictionary, Case::Accusative, number, gender, Animacy::Animate) == written_of(
            dictionary,
            Case::Genitive,
            number,
            gender,
            Animacy::Animate,
        ),
        written_of(dictionary, Case::Accusative, number, gender, Animacy::Inanimate) == written_of(
            dictionary,
            Case::Nominative,
            number,
            gender,
            Animacy::Inanimate,
        ),
{
}

/// An adjective's instrumental plural is its dative plural with `-и` after
/// it, whatever the gender: `синим`, `синими`; `новым`, `новыми`.
pub proof fn the_instrumental_plural_adds_i(dictionary: Seq<char>, gender: Gender, animacy: Animacy)
    ensures
        written_of(dictionary, Case::Instrumental, Number::Plural, gender, animacy) == match written_of(
            dictionary,
            Case::Dative,
            Number::Plural,
            gender,
            animacy,
        ) {
            Some(dative) => Some(dative + "и"@),
            None => None,
        },
{
    if let Some((base, shape)) = parted_of(dictionary) {
        let stressed = ends_with(dictionary, "ой"@);
        attributive::the_plural_opens_on_one_vowel(shape, gender, stressed);
        let table = table_of(shape, gender, Number::Plural, stressed);
        fitting_bends_only_the_first_letter(base, table.dative@, "и"@, stressed);
        assert(base + fitted_of(base, table.dative@ + "и"@, stressed) =~= base + fitted_of(
            base,
            table.dative@,
            stressed,
        ) + "и"@);
    }
}

} // verus!
