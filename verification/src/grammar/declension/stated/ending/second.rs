//! The endings of the second declension as an index states them: `стол`,
//! `конь`, `бой`, `окно`, `поле`.

use vstd::prelude::*;

use super::soft;
use crate::grammar::case::Case;
use crate::grammar::declension::index::Kind;
use crate::grammar::gender::{Animacy, Gender};
use crate::grammar::number::Number;

verus! {

/// The nominative singular: `-о`, `-е`, `-ё` for a neuter; `-ь`, `-й` or
/// nothing for a masculine.
#[verifier::allow_in_spec]
pub fn nominative(gender: Gender, kind: Kind, stressed: bool) -> &'static str
    returns
        if gender is Neuter {
            if !soft(kind) { "о" } else if stressed { "ё" } else { "е" }
        } else if kind is Soft {
            "ь"
        } else if kind is Glide || kind is Iotated {
            "й"
        } else {
            ""
        },
{
    if matches!(gender, Gender::Neuter) {
        return if !soft(kind) {
            "о"
        } else if stressed {
            "ё"
        } else {
            "е"
        };
    }
    if matches!(kind, Kind::Soft) {
        "ь"
    } else if matches!(kind, Kind::Glide) || matches!(kind, Kind::Iotated) {
        "й"
    } else {
        ""
    }
}

/// The genitive plural: `-ей`, `-й` or nothing for a neuter; `-ов`, `-ей`,
/// `-ев` or `-ёв` for a masculine by its stem and stress.
#[verifier::allow_in_spec]
pub fn genitive(gender: Gender, kind: Kind, stressed: bool) -> &'static str
    returns
        if gender is Neuter {
            if kind is Soft {
                "ей"
            } else if kind is Glide || kind is Iotated {
                "й"
            } else {
                ""
            }
        } else if kind is Hard || kind is Velar || (kind is Tse && stressed) {
            "ов"
        } else if kind is Sibilant || kind is Soft || kind is Third {
            "ей"
        } else if !stressed {
            "ев"
        } else {
            "ёв"
        },
{
    if matches!(gender, Gender::Neuter) {
        return if matches!(kind, Kind::Soft) {
            "ей"
        } else if matches!(kind, Kind::Glide) || matches!(kind, Kind::Iotated) {
            "й"
        } else {
            ""
        };
    }
    if matches!(kind, Kind::Hard) || matches!(kind, Kind::Velar) || (matches!(kind, Kind::Tse)
        && stressed) {
        "ов"
    } else if matches!(kind, Kind::Sibilant) || matches!(kind, Kind::Soft) || matches!(
        kind,
        Kind::Third
    ) {
        "ей"
    } else if !stressed {
        "ев"
    } else {
        "ёв"
    }
}

/// The nominative plural: `-а`, `-я` for a neuter, `-ы`, `-и` otherwise.
#[verifier::allow_in_spec]
pub fn opening(gender: Gender, soft: bool) -> &'static str
    returns
        if gender is Neuter {
            if soft { "я" } else { "а" }
        } else if soft {
            "и"
        } else {
            "ы"
        },
{
    if matches!(gender, Gender::Neuter) {
        return if soft { "я" } else { "а" };
    }
    if soft { "и" } else { "ы" }
}

/// A soft ending or a hard one, by the stem.
#[verifier::allow_in_spec]
pub fn vowel(soft: bool, held: &'static str, hard: &'static str) -> &'static str
    returns
        if soft { held } else { hard },
{
    if soft { held } else { hard }
}

/// The instrumental singular: `-ом` after a hard stem, `-ем` or `-ём` after
/// a soft one by the stress.
#[verifier::allow_in_spec]
pub fn instrumental(soft: bool, stressed: bool) -> &'static str
    returns
        if !soft { "ом" } else if stressed { "ём" } else { "ем" },
{
    if !soft {
        "ом"
    } else if stressed {
        "ём"
    } else {
        "ем"
    }
}

/// The accusative singular: the nominative for a neuter and a thing, the
/// genitive's `-а`, `-я` for a living masculine.
#[verifier::allow_in_spec]
pub fn accusative(gender: Gender, kind: Kind, animacy: Animacy, stressed: bool) -> &'static str
    returns
        if !(gender is Neuter) && animacy is Animate {
            vowel(soft(kind), "я", "а")
        } else {
            nominative(gender, kind, stressed)
        },
{
    if matches!(gender, Gender::Neuter) {
        return nominative(gender, kind, stressed);
    }
    match animacy {
        Animacy::Animate => vowel(soft(kind), "я", "а"),
        Animacy::Inanimate => nominative(gender, kind, stressed),
    }
}

/// The singular of the second declension.
#[verifier::allow_in_spec]
pub fn singular(gender: Gender, kind: Kind, case: Case, animacy: Animacy, stressed: bool) -> &'static str
    returns
        match case.merged() {
            Case::Genitive => vowel(soft(kind), "я", "а"),
            Case::Dative => vowel(soft(kind), "ю", "у"),
            Case::Instrumental => instrumental(soft(kind), stressed),
            Case::Prepositional => if kind is Iotated { "и" } else { "е" },
            Case::Accusative => accusative(gender, kind, animacy, stressed),
            _ => nominative(gender, kind, stressed),
        },
{
    let soft = soft(kind);
    match case.merged() {
        Case::Genitive => vowel(soft, "я", "а"),
        Case::Dative => vowel(soft, "ю", "у"),
        Case::Instrumental => instrumental(soft, stressed),
        Case::Prepositional => if matches!(kind, Kind::Iotated) {
            "и"
        } else {
            "е"
        },
        Case::Accusative => accusative(gender, kind, animacy, stressed),
        _ => nominative(gender, kind, stressed),
    }
}

/// The plural of the second declension.
#[verifier::allow_in_spec]
pub fn plural(gender: Gender, kind: Kind, case: Case, animacy: Animacy, stressed: bool) -> &'static str
    returns
        match case.merged() {
            Case::Genitive => genitive(gender, kind, stressed),
            Case::Dative => vowel(soft(kind), "ям", "ам"),
            Case::Instrumental => vowel(soft(kind), "ями", "ами"),
            Case::Prepositional => vowel(soft(kind), "ях", "ах"),
            Case::Accusative => if animacy is Animate {
                genitive(gender, kind, stressed)
            } else {
                opening(gender, soft(kind))
            },
            _ => opening(gender, soft(kind)),
        },
{
    let soft = soft(kind);
    match case.merged() {
        Case::Genitive => genitive(gender, kind, stressed),
        Case::Dative => vowel(soft, "ям", "ам"),
        Case::Instrumental => vowel(soft, "ями", "ами"),
        Case::Prepositional => vowel(soft, "ях", "ах"),
        Case::Accusative => match animacy {
            Animacy::Animate => genitive(gender, kind, stressed),
            Animacy::Inanimate => opening(gender, soft),
        },
        _ => opening(gender, soft),
    }
}

/// The ending of one cell of the second declension.
#[verifier::allow_in_spec]
pub fn of(gender: Gender, kind: Kind, case: Case, number: Number, animacy: Animacy, stressed: bool) -> &'static str
    returns
        if number is Singular {
            singular(gender, kind, case, animacy, stressed)
        } else {
            plural(gender, kind, case, animacy, stressed)
        },
{
    match number {
        Number::Singular => singular(gender, kind, case, animacy, stressed),
        Number::Plural => plural(gender, kind, case, animacy, stressed),
    }
}

/// A masculine and a neuter of one stem share every cell but the nominative,
/// the accusative and the genitive plural, where the kinds part company.
pub proof fn the_masculine_and_the_neuter_share_the_other_cells(
    kind: Kind,
    case: Case,
    number: Number,
    animacy: Animacy,
    stressed: bool,
)
    requires
        !(case.merged() is Nominative),
        !(case.merged() is Vocative),
        !(case.merged() is Accusative),
        !(case.merged() is Genitive && number is Plural),
    ensures
        of(Gender::Masculine, kind, case, number, animacy, stressed) == of(
            Gender::Neuter,
            kind,
            case,
            number,
            animacy,
            stressed,
        ),
{
}

} // verus!
