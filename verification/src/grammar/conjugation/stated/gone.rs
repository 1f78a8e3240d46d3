//! The past as a verb's index states it: the stem is the infinitive cut, and
//! the index says where a `ё` stands, what a ringed third class drops, and
//! how the ninth class spells its root.

use vstd::prelude::*;

use crate::alphabet::is_vowel;
use crate::grammar::conjugation::index::circled::Reach;
use crate::grammar::conjugation::index::kind::Kind;
use crate::grammar::conjugation::index::scheme::Scheme;
use crate::grammar::conjugation::index::VerbIndex;
use crate::grammar::conjugation::past::{self, table_of};
use crate::grammar::conjugation::stems::{self, past_of};
use crate::grammar::form::Bare;
use crate::grammar::gender::Gender;
use super::stem::seventh_of;
use crate::text::{last_index_in, last_index_of, head_of, joined, joined3, owned, rest_of, seen, strip_suffix, without_suffix};

verus! {

/// Whether a cell is the masculine singular, the common gender read as it.
#[verifier::allow_in_spec]
pub fn masculine(cell: Bare) -> bool
    returns
        cell matches Bare::Singular(gender) && (gender is Masculine || gender is Common),
{
    match cell {
        Bare::Singular(Gender::Masculine) | Bare::Singular(Gender::Common) => true,
        _ => false,
    }
}

/// Whether a past scheme puts the stress on the ending of a cell.
#[verifier::allow_in_spec]
pub fn on_ending(past: Scheme, cell: Bare) -> bool
    returns
        match past {
            Scheme::A => false,
            Scheme::B => !masculine(cell),
            _ => cell == Bare::Singular(Gender::Feminine),
        },
{
    match past {
        Scheme::A => false,
        Scheme::B => !masculine(cell),
        _ => match cell {
            Bare::Singular(Gender::Feminine) => true,
            _ => false,
        },
    }
}

/// The masculine of a stem closed by a consonant under scheme `b` writes its
/// last `е` as `ё`: `вёз`.
pub open spec fn yoed_of(stem: Seq<char>, index: VerbIndex, cell: Bare) -> Seq<char> {
    let closed = stem.len() > 0 && !is_vowel(stem.last());
    if !closed || !masculine(cell) || !(index.past is B) || last_index_of(stem, 'е') < 0 {
        stem
    } else {
        stem.update(last_index_of(stem, 'е'), 'ё')
    }
}

/// The ringed third class drops `-ну-`, but keeps it in a masculine the
/// fifth numeral marks whole.
pub open spec fn third_of(infinitive: Seq<char>, index: VerbIndex, cell: Bare) -> Option<Seq<char>> {
    match past_of(infinitive) {
        None => None,
        Some(full) => match without_suffix(full, "ну"@) {
            None => None,
            Some(bare) => if masculine(cell) && index.circled.masculine_kept == Some(Reach::Whole) {
                Some(full)
            } else {
                Some(bare)
            },
        },
    }
}

/// The ninth class writes `ер` where the stress has left the root and `ёр`
/// where it holds it.
pub open spec fn ninth_of(infinitive: Seq<char>, index: VerbIndex, cell: Bare) -> Option<Seq<char>> {
    match without_suffix(infinitive, "ереть"@) {
        None => None,
        Some(head) => {
            let gone = index.circled.past_prefixed == Some(Reach::Whole) || on_ending(index.past, cell);
            Some(head + if gone { "ер"@ } else { "ёр"@ })
        },
    }
}

/// The past stem of one cell as the index states it.
pub open spec fn gone_stem(infinitive: Seq<char>, index: VerbIndex, cell: Bare) -> Option<Seq<char>> {
    if index.signs.ringed && !(index.kind is Three || index.kind is Six) {
        None
    } else if index.kind is Nine {
        ninth_of(infinitive, index, cell)
    } else if index.kind is Eight || index.kind is Isolated {
        None
    } else if index.kind is Seven {
        match seventh_of(infinitive) {
            Some(stem) => Some(yoed_of(stem, index, cell)),
            None => None,
        }
    } else if index.kind is Three && index.signs.ringed {
        third_of(infinitive, index, cell)
    } else {
        match past_of(infinitive) {
            Some(stem) => Some(yoed_of(stem, index, cell)),
            None => None,
        }
    }
}

/// A cell of the past as the index states it.
pub open spec fn stated_past(infinitive: Seq<char>, index: VerbIndex, cell: Bare) -> Option<Seq<char>> {
    match gone_stem(infinitive, index, cell) {
        None => None,
        Some(stem) => {
            let gender = match cell.gender() {
                Some(gender) => gender,
                None => Gender::Masculine,
            };
            Some(stem + table_of(stem).of(gender, cell.number())@)
        },
    }
}

/// Writes one cell of the past.
pub fn written(infinitive: &str, index: VerbIndex, cell: Bare) -> (res: Option<String>)
    ensures
        seen(res) == stated_past(infinitive@, index, cell),
{
    let stem = match of(infinitive, index, cell) {
        Some(stem) => stem,
        None => return None,
    };
    let table = past::table(stem.as_str());
    let gender = match cell.gender() {
        Some(gender) => gender,
        None => Gender::Masculine,
    };
    Some(joined(stem.as_str(), table.of(gender, cell.number())))
}

/// The past stem of a cell.
fn of(infinitive: &str, index: VerbIndex, cell: Bare) -> (res: Option<String>)
    ensures
        seen(res) == gone_stem(infinitive@, index, cell),
{
    if index.signs.ringed && !(matches!(index.kind, Kind::Three) || matches!(index.kind, Kind::Six)) {
        return None;
    }
    if matches!(index.kind, Kind::Nine) {
        return ninth(infinitive, index, cell);
    }
    if matches!(index.kind, Kind::Eight) || matches!(index.kind, Kind::Isolated) {
        return None;
    }
    if matches!(index.kind, Kind::Seven) {
        return match stems::past(infinitive) {
            Some(stem) => {
                let n = stem.as_str().unicode_len();
                if n > 0 && stem.as_str().get_char(n - 1) == 'з' {
                    Some(yoed(stem.as_str(), index, cell))
                } else {
                    None
                }
            },
            None => None,
        };
    }
    if matches!(index.kind, Kind::Three) && index.signs.ringed {
        return third(infinitive, index, cell);
    }
    match stems::past(infinitive) {
        Some(stem) => Some(yoed(stem.as_str(), index, cell)),
        None => None,
    }
}

/// The ringed third class's past stem.
fn third(infinitive: &str, index: VerbIndex, cell: Bare) -> (res: Option<String>)
    ensures
        seen(res) == third_of(infinitive@, index, cell),
{
    let full = match stems::past(infinitive) {
        Some(full) => full,
        None => return None,
    };
    let bare = match strip_suffix(full.as_str(), "ну") {
        Some(head) => owned(head),
        None => return None,
    };
    if masculine(cell) && matches!(index.circled.masculine_kept, Some(Reach::Whole)) {
        return Some(full);
    }
    Some(bare)
}

/// The ninth class's past stem.
fn ninth(infinitive: &str, index: VerbIndex, cell: Bare) -> (res: Option<String>)
    ensures
        seen(res) == ninth_of(infinitive@, index, cell),
{
    let head = match strip_suffix(infinitive, "ереть") {
        Some(head) => head,
        None => return None,
    };
    let gone = matches!(index.circled.past_prefixed, Some(Reach::Whole)) || on_ending(index.past, cell);
    Some(joined(head, if gone { "ер" } else { "ёр" }))
}

/// Writes the `ё` of a masculine under scheme `b`.
fn yoed(stem: &str, index: VerbIndex, cell: Bare) -> (res: String)
    ensures
        res@ == yoed_of(stem@, index, cell),
{
    let n = stem.unicode_len();
    let closed = n > 0 && !is_vowel(stem.get_char(n - 1));
    if !closed || !masculine(cell) || !matches!(index.past, Scheme::B) {
        return owned(stem);
    }
    proof {
        last_index_in(stem@, 'е');
    }
    let mut i = n;
    while i > 0
        invariant
            n == stem@.len(),
            i <= n,
            forall|k: int| i <= k < n ==> stem@[k] != 'е',
            last_index_of(stem@, 'е') < i,
            -1 <= last_index_of(stem@, 'е') < n,
            last_index_of(stem@, 'е') >= 0 ==> stem@[last_index_of(stem@, 'е')] == 'е',
            forall|k: int| last_index_of(stem@, 'е') < k < n ==> stem@[k] != 'е',
            n > 0 && !is_vowel(stem@.last()) && masculine(cell) && index.past is B,
        decreases i,
    {
        if stem.get_char(i - 1) == 'е' {
            let at = i - 1;
            assert(last_index_of(stem@, 'е') == at);
            let held = joined3(head_of(stem, at), "ё", rest_of(stem, at + 1));
            proof {
                reveal_strlit("ё");
            }
            assert(held@ =~= stem@.update(at as int, 'ё'));
            return held;
        }
        i = i - 1;
    }
    owned(stem)
}

} // verus!
