//! Grammatical number.

use vstd::prelude::*;

verus! {

/// Grammatical number.
#[derive(Debug, Clone, Copy, PartialEq, Eq, PartialOrd, Ord, Hash, Structural)]
pub enum Number {
    /// One.
    Singular,
    /// More than one.
    Plural,
}

} // verus!
