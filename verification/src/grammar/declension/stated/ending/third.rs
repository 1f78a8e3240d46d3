//! The endings of the third declension as an index states them: `ночь`.

use vstd::prelude::*;

use crate::grammar::case::Case;
use crate::grammar::gender::Animacy;
use crate::grammar::number::Number;

verus! {

/// The singular of the third declension.
#[verifier::allow_in_spec]
pub fn singular(case: Case) -> &'static str
    returns
        match case.merged() {
            Case::Genitive => "и",
            Case::Dative => "и",
            Case::Prepositional => "и",
            Case::Instrumental => "ью",
            _ => "ь",
        },
{
    match case.merged() {
        Case::Genitive | Case::Dative | Case::Prepositional => "и",
        Case::Instrumental => "ью",
        _ => "ь",
    }
}

/// The plural of the third declension.
#[verifier::allow_in_spec]
pub fn plural(case: Case, animacy: Animacy) -> &'static str
    returns
        match case.merged() {
            Case::Genitive => "ей",
            Case::Dative => "ям",
            Case::Instrumental => "ями",
            Case::Prepositional => "ях",
            Case::Accusative => if animacy is Animate { "ей" } else { "и" },
            _ => "и",
        },
{
    match case.merged() {
        Case::Genitive => "ей",
        Case::Dative => "ям",
        Case::Instrumental => "ями",
        Case::Prepositional => "ях",
        Case::Accusative => match animacy {
            Animacy::Animate => "ей",
            Animacy::Inanimate => "и",
        },
        _ => "и",
    }
}

/// The ending of one cell of the third declension.
#[verifier::allow_in_spec]
pub fn of(case: Case, number: Number, animacy: Animacy) -> &'static str
    returns
        if number is Singular {
            singular(case)
        } else {
            plural(case, animacy)
        },
{
    match number {
        Number::Singular => singular(case),
        Number::Plural => plural(case, animacy),
    }
}

} // verus!
