//! The soft sign, where a rule writes it in place of a vowel that left.

pub mod before_l;

use vstd::prelude::*;

verus! {

/// The soft sign.
pub const SIGN: char = 'ь';

} // verus!
