//! The soft sign after `л` where a fleeting vowel drops: `палец — пальца`,
//! `лёд — льда`, `лев — льва`.

use vstd::prelude::*;

verus! {

/// Reports whether the soft sign stands where a fleeting vowel between two
/// letters dropped: after `л`, which keeps its softness in the sign.
#[verifier::allow_in_spec]
pub fn keeps(before: char, after: char) -> bool
    returns
        before == 'л',
{
    before == 'л'
}

} // verus!
