//! Writes a noun out from its lemma, its gender and its dictionary index:
//! the index names the stem and the stress, the lemma the declension, and
//! the fleeting vowel and the stressed `ё` bend the cell.

pub mod ending;
pub mod fleeting;
pub mod reading;
pub mod stem;
pub mod yo;

use vstd::prelude::*;

use self::ending::Shape;
use self::fleeting::{fleeting_of, Word};
use self::stem::stem_of;
use super::adjective::undotted;
use super::index::falls::{self, falls_on, Falls};
use super::index::Index;
use super::spelling::{fitted, fitted_of};
use crate::grammar::case::Case;
use crate::grammar::gender::{Animacy, Gender};
use crate::grammar::number::Number;
use crate::text::{folded, joined, last_of, owned, seen};

verus! {

/// Reports whether a lemma opens the first declension: it ends in `-а` or
/// `-я`.
#[verifier::allow_in_spec]
pub fn opens(lemma: &str) -> bool
    returns
        last_of(lemma@) == Some('а') || last_of(lemma@) == Some('я'),
{
    let n = lemma.unicode_len();
    n > 0 && (lemma.get_char(n - 1) == 'а' || lemma.get_char(n - 1) == 'я')
}

/// A stem as it is written before a stressed ending: its `ё` written `е`,
/// since the stress has left it.
pub fn unstressed(base: &str, stressed: bool) -> (res: String)
    ensures
        res@ == (if stressed {
            folded(base@)
        } else {
            base@
        }),
{
    if !stressed {
        return owned(base);
    }
    undotted(base)
}

/// A stated noun in a cell.
pub open spec fn written_of(
    lemma: Seq<char>,
    gender: Gender,
    animacy: Animacy,
    index: Index,
    case: Case,
    number: Number,
) -> Option<Seq<char>> {
    let opens = last_of(lemma) == Some('а') || last_of(lemma) == Some('я');
    match stem_of(lemma, gender, index) {
        None => None,
        Some(stem) => {
            let stressed = falls_on(index.accent, case, number) is Ending;
            let parted = index.fleeting;
            let base = if parted {
                fleeting_of(stem, Word { gender, kind: index.kind, animacy, opens }, case, number, stressed)
            } else {
                stem
            };
            match ending::of(gender, index, case, number, animacy, Shape { stressed, opens, parted }) {
                None => None,
                Some(held) => {
                    let base = if stressed && held@.len() > 0 { folded(base) } else { base };
                    Some(base + fitted_of(base, held@, stressed))
                },
            }
        },
    }
}

/// Writes a noun in a cell as its index states it: `конь 2b` — `конём`,
/// `отец 5*b` — `отца`.
pub fn written(lemma: &str, gender: Gender, animacy: Animacy, index: Index, case: Case, number: Number) -> (res:
    Option<String>)
    ensures
        seen(res) == written_of(lemma@, gender, animacy, index, case, number),
{
    let opening = opens(lemma);
    let stem = match stem::of(lemma, gender, index) {
        Some(stem) => stem,
        None => return None,
    };
    let stressed = matches!(falls::on(index.accent, case, number), Falls::Ending);
    let parted = index.fleeting;
    let base = if parted {
        fleeting::of(
            stem.as_str(),
            Word { gender, kind: index.kind, animacy, opens: opening },
            case,
            number,
            stressed,
        )
    } else {
        stem
    };
    let held = match ending::of(
        gender,
        index,
        case,
        number,
        animacy,
        Shape { stressed, opens: opening, parted },
    ) {
        Some(held) => held,
        None => return None,
    };
    let base = unstressed(base.as_str(), stressed && held.unicode_len() > 0);
    let spelled = fitted(base.as_str(), held, stressed);
    Some(joined(base.as_str(), spelled.as_str()))
}

} // verus!
