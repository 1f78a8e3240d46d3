//! Gender and animacy: what a nominal is.

use vstd::prelude::*;

verus! {

/// Grammatical gender.
#[derive(Debug, Clone, Copy, PartialEq, Eq, PartialOrd, Ord, Hash, Structural)]
pub enum Gender {
    /// Masculine.
    Masculine,
    /// Feminine.
    Feminine,
    /// Neuter.
    Neuter,
    /// Common gender, resolved by context.
    Common,
}

impl Gender {
    /// The genders a paradigm states a cell for, in the order the tables walk
    /// them.
    ///
    /// Three of the four: the common gender is resolved by the context a word
    /// stands in — `сирота` declines the same whichever it resolves to — so no
    /// table holds a row of its own for it.
    pub const STATED: [Gender; 3] = [Gender::Masculine, Gender::Feminine, Gender::Neuter];
}

/// Animacy of a nominal.
#[derive(Debug, Clone, Copy, PartialEq, Eq, PartialOrd, Ord, Hash, Structural)]
pub enum Animacy {
    /// Animate.
    Animate,
    /// Inanimate.
    Inanimate,
}

} // verus!
