//! The labial roots of the sixth class whose imperative closes on the soft
//! sign: `сыпать — сыпь`, where `колебать — колебли` keeps the vowel.

use vstd::prelude::*;

use crate::grammar::conjugation::index::kind::Kind;
use crate::grammar::conjugation::index::scheme::Scheme;
use crate::grammar::conjugation::index::VerbIndex;
use crate::grammar::conjugation::{listed, listed_in};
use crate::morphemics::alternation::{takes_epenthesis, EPENTHESIS};
use crate::text::{drop_last, owned};

verus! {

/// The labial roots the dictionary states with the soft sign.
pub const SOFT_ROOTS: [&'static str; 1] = ["сыпать"];

/// Whether a verb is a stated labial root of the sixth class under scheme
/// `a`, bare or under a prefix.
pub open spec fn is_soft(infinitive: Seq<char>, index: VerbIndex) -> bool {
    index.kind is Six && index.present is A && listed_in(infinitive, SOFT_ROOTS@)
}

/// Reports whether a verb's imperative closes on the soft sign for its root.
pub fn soft(infinitive: &str, index: VerbIndex) -> (res: bool)
    ensures
        res == is_soft(infinitive@, index),
{
    matches!(index.kind, Kind::Six) && matches!(index.present, Scheme::A) && listed(
        infinitive,
        &SOFT_ROOTS,
    )
}

/// A sixth-class stem that grew the `л` after its labial, without it.
pub open spec fn shed_of(held: Seq<char>, index: VerbIndex) -> Seq<char> {
    if index.kind is Six && held.len() >= 2 && held.last() == EPENTHESIS && takes_epenthesis(
        held[held.len() - 2],
    ) {
        held.drop_last()
    } else {
        held
    }
}

/// Sheds the `л` a sixth-class labial grew: `сыпл — сып`. Any other stem is
/// kept.
pub fn shed(held: String, index: VerbIndex) -> (res: String)
    ensures
        res@ == shed_of(held@, index),
{
    let n = held.as_str().unicode_len();
    let grown = matches!(index.kind, Kind::Six) && n >= 2 && held.as_str().get_char(n - 1)
        == EPENTHESIS && takes_epenthesis(held.as_str().get_char(n - 2));
    if !grown {
        return held;
    }
    owned(drop_last(held.as_str()))
}

} // verus!
