//! Aspect, transitivity and voice: what a verb is, and what its participle is.

use vstd::prelude::*;

verus! {

/// Grammatical aspect.
#[derive(Debug, Clone, Copy, PartialEq, Eq, PartialOrd, Ord, Hash, Structural)]
pub enum Aspect {
    /// Perfective.
    Perfective,
    /// Imperfective.
    Imperfective,
}

/// Whether a verb takes a direct object.
#[derive(Debug, Clone, Copy, PartialEq, Eq, PartialOrd, Ord, Hash, Structural)]
pub enum Transitivity {
    /// Takes one.
    Transitive,
    /// Takes none.
    Intransitive,
}

/// Whether the one a participle describes acts or is acted on.
#[derive(Debug, Clone, Copy, PartialEq, Eq, PartialOrd, Ord, Hash, Structural)]
pub enum Voice {
    /// Acts.
    Active,
    /// Is acted on.
    Passive,
}

} // verus!
