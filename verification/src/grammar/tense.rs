//! Tense, mood and person: what a verb form places and who it speaks of.

use vstd::prelude::*;

verus! {

/// Grammatical tense.
#[derive(Debug, Clone, Copy, PartialEq, Eq, PartialOrd, Ord, Hash, Structural)]
pub enum Tense {
    /// Past.
    Past,
    /// Present.
    Present,
    /// Future.
    Future,
}

/// Grammatical mood.
#[derive(Debug, Clone, Copy, PartialEq, Eq, PartialOrd, Ord, Hash, Structural)]
pub enum Mood {
    /// Indicative.
    Indicative,
    /// Imperative.
    Imperative,
    /// Subjunctive.
    Subjunctive,
}

/// Grammatical person.
#[derive(Debug, Clone, Copy, PartialEq, Eq, PartialOrd, Ord, Hash, Structural)]
pub enum Person {
    /// The speaker.
    First,
    /// The one addressed.
    Second,
    /// The one spoken about.
    Third,
}

} // verus!
