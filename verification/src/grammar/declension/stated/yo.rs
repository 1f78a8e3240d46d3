//! The `ё` a stem trades its `е` for under the stress, where the index
//! writes `, ё`: `жена — жёны`.

use vstd::prelude::*;

use crate::text::{contains_char, find_last, has_letter, last_index_of, owned, replaced_at};

verus! {

/// Reports whether the stem's `ё` stands in a form: wherever the stress is
/// off the ending, and under it only in a bare form that parts no vowel.
#[verifier::allow_in_spec]
pub fn stands(stressed: bool, bare: bool, parting: bool) -> bool
    returns
        !stressed || (bare && !parting),
{
    if !stressed {
        return true;
    }
    bare && !parting
}

/// A stem with its last `е` written `ё`, unless it already shows the letter.
pub open spec fn yo_of(stem: Seq<char>) -> Seq<char> {
    if has_letter(stem, 'ё') || last_index_of(stem, 'е') < 0 {
        stem
    } else {
        stem.update(last_index_of(stem, 'е'), 'ё')
    }
}

/// Writes a stem with its last `е` as `ё`: `жен — жён`, `веретен — веретён`.
/// A stem already showing the letter, or with no `е`, is left alone.
pub fn written(stem: &str) -> (res: String)
    ensures
        res@ == yo_of(stem@),
{
    if contains_char(stem, 'ё') {
        return owned(stem);
    }
    match find_last(stem, 'е') {
        Some(at) => {
            let held = replaced_at(stem, at, "ё");
            proof {
                reveal_strlit("ё");
            }
            assert(held@ =~= stem@.update(at as int, 'ё'));
            held
        },
        None => owned(stem),
    }
}

} // verus!
