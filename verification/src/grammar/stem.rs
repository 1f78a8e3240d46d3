//! How a stem ends, which is what decides the shape of the ending after it.
//!
//! Russian states one set of endings and writes it two ways: `столом` beside
//! `конём`, `читают` beside `строят`. The difference is not in the ending but
//! in what the stem ends with, so it is stated once here and both paradigms
//! ask the same question of it.

use vstd::prelude::*;

use crate::alphabet::{always_soft, softens};

/// Reports whether a letter is a sibilant, stated by the alphabet and named
/// here, where the paradigms already look.
pub use crate::alphabet::is_sibilant;

verus! {

/// How a stem ends.
#[derive(Debug, Clone, Copy, PartialEq, Eq, Hash, Structural)]
pub enum Stem {
    /// The stem ends hard, and the endings open on а, о, у, ы.
    Hard,
    /// The stem ends soft, and the same endings open on я, е, ю, и.
    Soft,
}

impl Stem {
    /// Names how a stem ends, given its last letter.
    ///
    /// `ч`, `щ` and `й` are soft wherever they stand; the soft sign and the
    /// soft vowels are written precisely to state a soft stem. Everything else
    /// is hard until a following letter says otherwise.
    #[verifier::allow_in_spec]
    pub fn of(last: char) -> Stem
        returns
            if always_soft(last) || softens(last) {
                Stem::Soft
            } else {
                Stem::Hard
            },
    {
        if always_soft(last) || softens(last) {
            Stem::Soft
        } else {
            Stem::Hard
        }
    }

    /// Reports whether the stem takes soft-shaped endings.
    #[verifier::allow_in_spec]
    pub fn is_soft(self) -> bool
        returns
            self is Soft,
    {
        match self {
            Stem::Soft => true,
            Stem::Hard => false,
        }
    }
}

} // verus!
