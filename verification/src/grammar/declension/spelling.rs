//! The spelling rules every ending obeys, whatever the word: `ы` is written
//! `и` after a sibilant or a back consonant, an unstressed `о` is written `е`
//! after a sibilant or `ц`, `я` and `ю` are written `а` and `у` after them.
//! And the fleeting vowel: the one a stem takes between its last two
//! consonants when no ending follows, and the one it loses when one does.

use vstd::prelude::*;

pub use crate::alphabet::bars_yi;
use crate::alphabet::{is_consonant, is_sibilant};
use crate::text::{joined, letter_at, head_of, last_of, owned, rest_of};

verus! {

/// Reports whether a consonant refuses the soft vowels `я` and `ю` after it:
/// the sibilants and `ц`.
#[verifier::allow_in_spec]
pub fn bars_soft_vowels(letter: char) -> bool
    returns
        is_sibilant(letter) || letter == 'ц',
{
    is_sibilant(letter) || letter == 'ц'
}

/// Reports whether a consonant refuses an unstressed `о` after it: the
/// sibilants and `ц`.
#[verifier::allow_in_spec]
pub fn bars_unstressed_o(letter: char) -> bool
    returns
        is_sibilant(letter) || letter == 'ц',
{
    is_sibilant(letter) || letter == 'ц'
}

/// The first letter of an ending as the letter before it lets it be written.
pub open spec fn bent(last: char, first: char, ending_stressed: bool) -> char {
    if first == 'ы' && bars_yi(last) {
        'и'
    } else if (first == 'о' || first == 'ё') && !ending_stressed && bars_unstressed_o(last) {
        'е'
    } else if first == 'я' && bars_soft_vowels(last) {
        'а'
    } else if first == 'ю' && bars_soft_vowels(last) {
        'у'
    } else {
        first
    }
}

/// An ending as the last letter of its stem lets it be written.
pub open spec fn fitted_of(stem: Seq<char>, ending: Seq<char>, ending_stressed: bool) -> Seq<char> {
    if stem.len() == 0 || ending.len() == 0 {
        ending
    } else {
        seq![bent(stem.last(), ending[0], ending_stressed)] + ending.drop_first()
    }
}

/// Writes an ending the way the last letter of its stem lets it be written.
pub fn fitted(stem: &str, ending: &str, ending_stressed: bool) -> (res: String)
    ensures
        res@ == fitted_of(stem@, ending@, ending_stressed),
{
    let n = stem.unicode_len();
    let m = ending.unicode_len();
    if n == 0 || m == 0 {
        return owned(ending);
    }
    let last = stem.get_char(n - 1);
    let first = ending.get_char(0);
    let rest = rest_of(ending, 1);
    assert(rest@ =~= ending@.drop_first());
    let held = if first == 'ы' && bars_yi(last) {
        "и"
    } else if (first == 'о' || first == 'ё') && !ending_stressed && bars_unstressed_o(last) {
        "е"
    } else if first == 'я' && bars_soft_vowels(last) {
        "а"
    } else if first == 'ю' && bars_soft_vowels(last) {
        "у"
    } else {
        assert(ending@ =~= seq![ending@[0]] + ending@.drop_first());
        return owned(ending);
    };
    proof {
        reveal_strlit("и");
        reveal_strlit("е");
        reveal_strlit("а");
        reveal_strlit("у");
    }
    joined(held, rest)
}

/// Reports whether a letter is a back consonant: `г`, `к`, `х`.
#[verifier::allow_in_spec]
pub fn backs(letter: char) -> bool
    returns
        letter == 'к' || letter == 'г' || letter == 'х',
{
    letter == 'к' || letter == 'г' || letter == 'х'
}

/// Reports whether a consonant takes `е` beside it when a vowel comes
/// between: the sibilants and `ц`.
#[verifier::allow_in_spec]
pub fn hushes(letter: char) -> bool
    returns
        is_sibilant(letter) || letter == 'ц',
{
    is_sibilant(letter) || letter == 'ц'
}

/// The vowel that comes between two consonants: `е` beside a sibilant, `ц`
/// or the glide, `о` after a back consonant, `ё` under the stress, `о`
/// before a back consonant, `е` otherwise.
#[verifier::allow_in_spec]
pub fn parting(before: char, last: char, stressed: bool) -> char
    returns
        if hushes(before) || hushes(last) || before == 'й' {
            'е'
        } else if backs(before) {
            'о'
        } else if stressed {
            'ё'
        } else if backs(last) {
            'о'
        } else {
            'е'
        },
{
    if hushes(before) || hushes(last) || before == 'й' {
        'е'
    } else if backs(before) {
        'о'
    } else if stressed {
        'ё'
    } else if backs(last) {
        'о'
    } else {
        'е'
    }
}

/// A stem that ends in two consonants with its fleeting vowel put between
/// them; the glide, where it is the first of the two, gives way to the
/// vowel.
pub open spec fn parted_of(stem: Seq<char>, stressed: bool) -> Seq<char> {
    let count = stem.len();
    if count < 2 || !is_consonant(stem[count - 1]) || !is_consonant(stem[count - 2]) {
        stem
    } else {
        let before = stem[count - 2];
        let last = stem[count - 1];
        let kept = if before == 'й' { count - 2 } else { count - 1 };
        stem.subrange(0, kept) + seq![parting(before, last, stressed), last]
    }
}

/// A stem with its fleeting vowel put between its last two consonants:
/// `окн` — `окон`, `сестр` — `сестёр`, `бойк` — `боек`.
pub fn parted(stem: &str, stressed: bool) -> (res: String)
    ensures
        res@ == parted_of(stem@, stressed),
{
    let count = stem.unicode_len();
    if count < 2 {
        return owned(stem);
    }
    let last = stem.get_char(count - 1);
    let before = stem.get_char(count - 2);
    if !is_consonant(last) || !is_consonant(before) {
        return owned(stem);
    }
    let vowel = parting(before, last, stressed);
    let kept = if before == 'й' { count - 2 } else { count - 1 };
    let mut written = owned(head_of(stem, kept));
    crate::text::push_letter(&mut written, vowel);
    crate::text::push_letter(&mut written, last);
    assert(written@ =~= stem@.subrange(0, kept as int) + seq![vowel, last]);
    written
}

/// A stem with the fleeting vowel before its last consonant taken out, when
/// it has one to lose: a consonant, `о`, `е` or `ё`, and a consonant.
pub open spec fn merged_of(stem: Seq<char>) -> Option<Seq<char>> {
    let count = stem.len();
    if count < 3 {
        None
    } else if !is_consonant(stem[count - 1]) || !is_consonant(stem[count - 3]) || !(stem[count
        - 2] == 'о' || stem[count - 2] == 'е' || stem[count - 2] == 'ё') {
        None
    } else {
        Some(stem.subrange(0, count - 2).push(stem[count - 1]))
    }
}

/// A stem with its fleeting vowel taken out: `окон` — `окн`, `сон` — `сн`.
pub fn merged(stem: &str) -> (res: Option<String>)
    ensures
        crate::text::seen(res) == merged_of(stem@),
{
    let count = stem.unicode_len();
    if count < 3 {
        return None;
    }
    let last = stem.get_char(count - 1);
    let vowel = stem.get_char(count - 2);
    let before = stem.get_char(count - 3);
    if !is_consonant(last) || !is_consonant(before) || !(vowel == 'о' || vowel == 'е' || vowel
        == 'ё') {
        return None;
    }
    let mut written = owned(head_of(stem, count - 2));
    crate::text::push_letter(&mut written, last);
    Some(written)
}

/// The code holds of every fitted ending: after a sibilant or a back
/// consonant it does not open on `ы`; after a sibilant or `ц` it does not open
/// on `я` or `ю`, nor, unstressed, on `о` or `ё`. Fitting keeps the ending's
/// length, and fitting it again changes nothing.
pub proof fn fitted_endings_obey_the_code(stem: Seq<char>, ending: Seq<char>, ending_stressed: bool)
    requires
        stem.len() > 0,
        ending.len() > 0,
    ensures
        ({
            let written = fitted_of(stem, ending, ending_stressed);
            &&& written.len() == ending.len()
            &&& bars_yi(stem.last()) ==> written[0] != 'ы'
            &&& bars_soft_vowels(stem.last()) ==> written[0] != 'я' && written[0] != 'ю'
            &&& !ending_stressed && bars_unstressed_o(stem.last()) ==> written[0] != 'о'
                && written[0] != 'ё'
            &&& fitted_of(stem, written, ending_stressed) == written
        }),
{
    let written = fitted_of(stem, ending, ending_stressed);
    assert(written.drop_first() =~= ending.drop_first());
    assert(fitted_of(stem, written, ending_stressed) =~= written);
}

/// Taking out the fleeting vowel undoes putting it in: a stem that ends in
/// two consonants, the first of them not the glide, comes back whole.
pub proof fn merging_undoes_parting(stem: Seq<char>, stressed: bool)
    requires
        stem.len() >= 2,
        is_consonant(stem[stem.len() - 1]),
        is_consonant(stem[stem.len() - 2]),
        stem[stem.len() - 2] != 'й',
    ensures
        merged_of(parted_of(stem, stressed)) == Some(stem),
{
    let parted = parted_of(stem, stressed);
    assert(parted.subrange(0, parted.len() - 2).push(parted[parted.len() - 1]) =~= stem);
}

/// Fitting bends only the first letter of an ending: letters written after
/// a nonempty ending stay as they are.
pub proof fn fitting_bends_only_the_first_letter(
    stem: Seq<char>,
    ending: Seq<char>,
    more: Seq<char>,
    ending_stressed: bool,
)
    requires
        ending.len() > 0,
    ensures
        fitted_of(stem, ending + more, ending_stressed) == fitted_of(stem, ending, ending_stressed) + more,
{
    if stem.len() > 0 {
        assert((ending + more)[0] == ending[0]);
        assert((ending + more).drop_first() =~= ending.drop_first() + more);
        assert(seq![bent(stem.last(), ending[0], ending_stressed)] + (ending.drop_first() + more)
            =~= seq![bent(stem.last(), ending[0], ending_stressed)] + ending.drop_first() + more);
    }
}

} // verus!
