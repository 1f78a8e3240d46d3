//! The endings of the first declension as an index states them: `жена`,
//! `земля`, `армия`.

use vstd::prelude::*;

use super::soft;
use crate::grammar::case::Case;
use crate::grammar::declension::index::Kind;
use crate::grammar::gender::Animacy;
use crate::grammar::number::Number;

verus! {

/// The bare genitive plural: `ь` after a soft stem, `й` after the glide,
/// nothing after a hard stem or where a fleeting vowel parts the stem.
#[verifier::allow_in_spec]
pub fn bare(kind: Kind, parted: bool) -> &'static str
    returns
        if !parted && kind is Soft {
            "ь"
        } else if !parted && (kind is Glide || kind is Iotated) {
            "й"
        } else {
            ""
        },
{
    if !parted && matches!(kind, Kind::Soft) {
        "ь"
    } else if !parted && (matches!(kind, Kind::Glide) || matches!(kind, Kind::Iotated)) {
        "й"
    } else {
        ""
    }
}

/// The instrumental singular: `-ой` after a hard stem, `-ей` or `-ёй`
/// after a soft one by the stress.
#[verifier::allow_in_spec]
pub fn instrumental(soft: bool, stressed: bool) -> &'static str
    returns
        if !soft { "ой" } else if stressed { "ёй" } else { "ей" },
{
    if !soft {
        "ой"
    } else if stressed {
        "ёй"
    } else {
        "ей"
    }
}

/// The nominative plural: `-и` after a soft stem, `-ы` after a hard one.
#[verifier::allow_in_spec]
pub fn nominative(soft: bool) -> &'static str
    returns
        if soft { "и" } else { "ы" },
{
    if soft { "и" } else { "ы" }
}

/// The singular of the first declension.
#[verifier::allow_in_spec]
pub fn singular(kind: Kind, case: Case, stressed: bool) -> &'static str
    returns
        match case.merged() {
            Case::Genitive => if soft(kind) { "и" } else { "ы" },
            Case::Dative => if kind is Iotated { "и" } else { "е" },
            Case::Prepositional => if kind is Iotated { "и" } else { "е" },
            Case::Accusative => if soft(kind) { "ю" } else { "у" },
            Case::Instrumental => instrumental(soft(kind), stressed),
            _ => if soft(kind) { "я" } else { "а" },
        },
{
    let soft = soft(kind);
    match case.merged() {
        Case::Genitive => if soft { "и" } else { "ы" },
        Case::Dative | Case::Prepositional => if matches!(kind, Kind::Iotated) {
            "и"
        } else {
            "е"
        },
        Case::Accusative => if soft { "ю" } else { "у" },
        Case::Instrumental => instrumental(soft, stressed),
        _ => if soft { "я" } else { "а" },
    }
}

/// The plural of the first declension.
#[verifier::allow_in_spec]
pub fn plural(kind: Kind, case: Case, animacy: Animacy, parted: bool) -> &'static str
    returns
        match case.merged() {
            Case::Genitive => bare(kind, parted),
            Case::Dative => if soft(kind) { "ям" } else { "ам" },
            Case::Instrumental => if soft(kind) { "ями" } else { "ами" },
            Case::Prepositional => if soft(kind) { "ях" } else { "ах" },
            Case::Accusative => if animacy is Animate {
                bare(kind, parted)
            } else {
                nominative(soft(kind))
            },
            _ => nominative(soft(kind)),
        },
{
    let soft = soft(kind);
    match case.merged() {
        Case::Genitive => bare(kind, parted),
        Case::Dative => if soft { "ям" } else { "ам" },
        Case::Instrumental => if soft { "ями" } else { "ами" },
        Case::Prepositional => if soft { "ях" } else { "ах" },
        Case::Accusative => match animacy {
            Animacy::Animate => bare(kind, parted),
            Animacy::Inanimate => nominative(soft),
        },
        _ => nominative(soft),
    }
}

/// The ending of one cell of the first declension.
#[verifier::allow_in_spec]
pub fn of(kind: Kind, case: Case, number: Number, animacy: Animacy, stressed: bool, parted: bool) -> &'static str
    returns
        if number is Singular {
            singular(kind, case, stressed)
        } else {
            plural(kind, case, animacy, parted)
        },
{
    match number {
        Number::Singular => singular(kind, case, stressed),
        Number::Plural => plural(kind, case, animacy, parted),
    }
}

} // verus!
