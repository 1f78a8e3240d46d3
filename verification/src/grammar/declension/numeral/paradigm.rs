//! The two patterns the declining numerals follow: `пять` declines as a noun
//! of the third declension, `двое` as an adjective in the plural.

use vstd::prelude::*;

use crate::grammar::case::Case;
use crate::grammar::gender::Animacy;

verus! {

/// A numeral's declension pattern.
#[derive(Debug, Clone, Copy, PartialEq, Eq, Hash, PartialOrd, Ord, Structural)]
pub enum Paradigm {
    /// `пять`, `пяти`, `пятью`.
    Third,
    /// `двое`, `двоих`, `двоими`.
    Collective,
}

/// The case a numeral is written in: an accusative that counts living
/// beings points at them in the genitive.
#[verifier::allow_in_spec]
pub fn pointed(case: Case, animacy: Animacy) -> Case
    returns
        if case.merged() is Accusative && animacy is Animate {
            Case::Genitive
        } else {
            case.merged()
        },
{
    if matches!(case.merged(), Case::Accusative) && matches!(animacy, Animacy::Animate) {
        Case::Genitive
    } else {
        case.merged()
    }
}

impl Paradigm {
    /// The ending of a case under the pattern; the vocative has none.
    #[verifier::allow_in_spec]
    pub fn ending(self, case: Case, animacy: Animacy) -> Option<&'static str>
        returns
            match pointed(case, animacy) {
                Case::Nominative => Some(if self is Third { "ь" } else { "е" }),
                Case::Genitive => Some(if self is Third { "и" } else { "их" }),
                Case::Dative => Some(if self is Third { "и" } else { "им" }),
                Case::Accusative => Some(if self is Third { "ь" } else { "е" }),
                Case::Instrumental => Some(if self is Third { "ью" } else { "ими" }),
                Case::Prepositional => Some(if self is Third { "и" } else { "их" }),
                _ => None,
            },
    {
        let third = matches!(self, Paradigm::Third);
        match pointed(case, animacy) {
            Case::Nominative => Some(if third { "ь" } else { "е" }),
            Case::Genitive => Some(if third { "и" } else { "их" }),
            Case::Dative => Some(if third { "и" } else { "им" }),
            Case::Accusative => Some(if third { "ь" } else { "е" }),
            Case::Instrumental => Some(if third { "ью" } else { "ими" }),
            Case::Prepositional => Some(if third { "и" } else { "их" }),
            _ => None,
        }
    }
}

} // verus!
