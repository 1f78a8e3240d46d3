//! The cases a nominal form stands in.

use vstd::prelude::*;

verus! {

/// Grammatical case, with the second cases Russian keeps inside the six.
#[derive(Debug, Clone, Copy, PartialEq, Eq, PartialOrd, Ord, Hash, Structural)]
pub enum Case {
    /// Nominative.
    Nominative,
    /// Genitive.
    Genitive,
    /// Dative.
    Dative,
    /// Accusative.
    Accusative,
    /// Instrumental.
    Instrumental,
    /// Prepositional.
    Prepositional,
    /// Vocative.
    Vocative,
    /// The second genitive: `чаю`.
    Partitive,
    /// The second prepositional: `в лесу`.
    Locative,
}

impl Case {
    /// The six cases every paradigm states a cell for, in the order the
    /// grammars name them.
    pub const STATED: [Case; 6] = [
        Case::Nominative,
        Case::Genitive,
        Case::Dative,
        Case::Accusative,
        Case::Instrumental,
        Case::Prepositional,
    ];

    /// The case this one counts as wherever cases are compared: the partitive
    /// as the genitive and the locative as the prepositional. Every other case
    /// is itself.
    #[verifier::allow_in_spec]
    pub fn merged(self) -> Case
        returns
            match self {
                Case::Partitive => Case::Genitive,
                Case::Locative => Case::Prepositional,
                other => other,
            },
    {
        match self {
            Case::Partitive => Case::Genitive,
            Case::Locative => Case::Prepositional,
            other => other,
        }
    }
}


/// A merged case is merged already: merging twice is merging once.
pub proof fn merging_is_settled(case: Case)
    ensures
        case.merged().merged() == case.merged(),
        Case::STATED@.contains(case) ==> case.merged() == case,
{
    if Case::STATED@.contains(case) {
        let i = choose|i: int| 0 <= i < 6 && Case::STATED@[i] == case;
        assert(0 <= i < 6);
    }
}

} // verus!
