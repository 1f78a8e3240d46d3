//! The ending a stated noun takes in a cell: its index names the stem, its
//! lemma the declension, and the stress and the fleeting vowel bend the rest.

pub mod first;
pub mod second;
pub mod third;

use vstd::prelude::*;

use crate::grammar::case::Case;
use crate::grammar::declension::index::{Index, Kind};
use crate::grammar::gender::{Animacy, Gender};
use crate::grammar::number::Number;

verus! {

/// What bends an ending beyond its table: whether it carries the stress,
/// whether the lemma opens on `-а`, `-я`, and whether a fleeting vowel parts
/// the stem.
#[derive(Debug, Clone, Copy, PartialEq, Eq, Structural)]
pub struct Shape {
    /// Whether the ending carries the stress.
    pub stressed: bool,
    /// Whether the lemma declines by the first declension.
    pub opens: bool,
    /// Whether the index writes a fleeting vowel.
    pub parted: bool,
}

/// Reports whether a stem kind takes the soft endings.
#[verifier::allow_in_spec]
pub fn soft(kind: Kind) -> bool
    returns
        kind is Soft || kind is Glide || kind is Iotated || kind is Third,
{
    matches!(kind, Kind::Soft) || matches!(kind, Kind::Glide) || matches!(kind, Kind::Iotated)
        || matches!(kind, Kind::Third)
}

/// The ending of a stated noun in one cell: the third declension by its
/// kind, the first by its lemma, the second otherwise.
#[verifier::allow_in_spec]
pub fn of(gender: Gender, index: Index, case: Case, number: Number, animacy: Animacy, shape: Shape) -> Option<
    &'static str,
>
    returns
        if index.kind is Third {
            Some(third::of(case, number, animacy))
        } else if shape.opens {
            Some(first::of(index.kind, case, number, animacy, shape.stressed, shape.parted))
        } else {
            Some(second::of(gender, index.kind, case, number, animacy, shape.stressed))
        },
{
    if matches!(index.kind, Kind::Third) {
        return Some(third::of(case, number, animacy));
    }
    if shape.opens {
        return Some(first::of(index.kind, case, number, animacy, shape.stressed, shape.parted));
    }
    Some(second::of(gender, index.kind, case, number, animacy, shape.stressed))
}

/// Whether a noun is alive tells only in the accusative: in every other case
/// a stated noun takes the same ending either way.
pub proof fn animacy_tells_only_in_the_accusative(
    gender: Gender,
    index: Index,
    case: Case,
    number: Number,
    shape: Shape,
)
    requires
        !(case is Accusative),
    ensures
        of(gender, index, case, number, Animacy::Animate, shape) == of(
            gender,
            index,
            case,
            number,
            Animacy::Inanimate,
            shape,
        ),
{
}

} // verus!
