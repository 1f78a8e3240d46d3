//! Where the stress of a declined form falls, by the accent of its index.

use vstd::prelude::*;

use super::Accent;
use crate::grammar::case::Case;
use crate::grammar::number::Number;

verus! {

/// Whether a form is stressed on its stem or on its ending.
#[derive(Debug, Clone, Copy, PartialEq, Eq, Hash, Structural)]
pub enum Falls {
    /// On the stem.
    Stem,
    /// On the ending.
    Ending,
}

/// The stem where one cell is the cell named, the ending elsewhere.
pub open spec fn pulled(case: Case, number: Number, held: Case, of: Number) -> Falls {
    if case == held && number == of {
        Falls::Stem
    } else {
        Falls::Ending
    }
}

/// Where an accent puts the stress of one cell.
pub open spec fn falls_on(accent: Accent, case: Case, number: Number) -> Falls {
    let case = case.merged();
    match accent {
        Accent::A => Falls::Stem,
        Accent::B => Falls::Ending,
        Accent::BPrime => pulled(case, number, Case::Instrumental, Number::Singular),
        Accent::C => if number is Singular { Falls::Stem } else { Falls::Ending },
        Accent::D => if number is Plural { Falls::Stem } else { Falls::Ending },
        Accent::DPrime => if case == Case::Accusative && number is Singular {
            Falls::Stem
        } else if number is Plural {
            Falls::Stem
        } else {
            Falls::Ending
        },
        Accent::E => if number is Singular || case is Nominative {
            Falls::Stem
        } else {
            Falls::Ending
        },
        Accent::F => pulled(case, number, Case::Nominative, Number::Singular),
        Accent::FPrime => pulled(case, number, Case::Accusative, Number::Singular),
        Accent::FDouble => if (case is Instrumental && number is Singular) || (case is Nominative
            && number is Plural) {
            Falls::Stem
        } else {
            Falls::Ending
        },
    }
}

/// Whether a cell is the one named, the six stated cases and the number
/// alike.
#[verifier::allow_in_spec]
pub fn same(case: Case, number: Number, held: Case, of: Number) -> bool
    returns
        case == held && number == of && !(held is Vocative || held is Partitive || held is Locative),
{
    let cased = match (case, held) {
        (Case::Nominative, Case::Nominative) => true,
        (Case::Genitive, Case::Genitive) => true,
        (Case::Dative, Case::Dative) => true,
        (Case::Accusative, Case::Accusative) => true,
        (Case::Instrumental, Case::Instrumental) => true,
        (Case::Prepositional, Case::Prepositional) => true,
        _ => false,
    };
    let numbered = match (number, of) {
        (Number::Singular, Number::Singular) => true,
        (Number::Plural, Number::Plural) => true,
        _ => false,
    };
    cased && numbered
}

/// The stem where the number is the one the stem holds, the ending
/// elsewhere.
#[verifier::allow_in_spec]
pub fn by_number(number: Number, stem: Number) -> Falls
    returns
        if number == stem { Falls::Stem } else { Falls::Ending },
{
    match (number, stem) {
        (Number::Singular, Number::Singular) | (Number::Plural, Number::Plural) => Falls::Stem,
        _ => Falls::Ending,
    }
}

/// The stem in one cell, the ending elsewhere.
#[verifier::allow_in_spec]
pub fn pulled_to(case: Case, number: Number, held: Case, of: Number) -> Falls
    returns
        if same(case, number, held, of) { Falls::Stem } else { Falls::Ending },
{
    if same(case, number, held, of) {
        Falls::Stem
    } else {
        Falls::Ending
    }
}

/// Scheme `e`: the stem in the singular and the nominative plural.
#[verifier::allow_in_spec]
pub fn opening(case: Case, number: Number) -> Falls
    returns
        if number is Singular || case is Nominative { Falls::Stem } else { Falls::Ending },
{
    if matches!(number, Number::Singular) || matches!(case, Case::Nominative) {
        Falls::Stem
    } else {
        Falls::Ending
    }
}

/// Scheme `f″`: the stem in the instrumental singular and the nominative
/// plural.
#[verifier::allow_in_spec]
pub fn doubled(case: Case, number: Number) -> Falls
    returns
        if same(case, number, Case::Instrumental, Number::Singular) || same(
            case,
            number,
            Case::Nominative,
            Number::Plural,
        ) {
            Falls::Stem
        } else {
            Falls::Ending
        },
{
    if same(case, number, Case::Instrumental, Number::Singular) || same(
        case,
        number,
        Case::Nominative,
        Number::Plural,
    ) {
        return Falls::Stem;
    }
    Falls::Ending
}

/// Where the stress of a cell falls under an accent: `a` on the stem
/// throughout, `b` on the ending, and the rest as their letters say. A
/// partitive is stressed as the genitive, a locative as the prepositional.
pub fn on(accent: Accent, case: Case, number: Number) -> (res: Falls)
    ensures
        res == falls_on(accent, case, number),
{
    let case = case.merged();
    match accent {
        Accent::A => Falls::Stem,
        Accent::B => Falls::Ending,
        Accent::BPrime => pulled_to(case, number, Case::Instrumental, Number::Singular),
        Accent::C => by_number(number, Number::Singular),
        Accent::D => by_number(number, Number::Plural),
        Accent::DPrime => if same(case, number, Case::Accusative, Number::Singular) {
            Falls::Stem
        } else {
            by_number(number, Number::Plural)
        },
        Accent::E => opening(case, number),
        Accent::F => pulled_to(case, number, Case::Nominative, Number::Singular),
        Accent::FPrime => pulled_to(case, number, Case::Accusative, Number::Singular),
        Accent::FDouble => doubled(case, number),
    }
}

} // verus!
