//! The word a preposition governs: it must stand in a case the preposition
//! hands out.

use vstd::prelude::*;

use super::case_of;
use crate::grammar::case::Case;
use crate::grammar::closed::preposition::{self, governs_of};
use crate::grammar::form::Form;

verus! {

/// Reports whether a preposition admits a dependent: the dependent stands in
/// a case, the second prepositional read as the first, that the preposition
/// hands out.
pub fn admits(written: &str, dependent: Form) -> (res: bool)
    ensures
        res == match dependent.case() {
            Some(held) => governs_of(written@).contains(held.merged()),
            None => false,
        },
{
    match case_of(dependent) {
        Some(case) => preposition::admits(written, case),
        None => false,
    }
}

/// The cases a preposition hands out; none for a word that is no
/// preposition.
pub fn handed(written: &str) -> (res: &'static [Case])
    ensures
        res@ == governs_of(written@),
{
    preposition::governs(written)
}

} // verus!
