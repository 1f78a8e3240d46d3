//! The fleeting vowel of a stated noun: the vowel a masculine loses under
//! its endings — `отец — отца`, `палец — пальца` — and the vowel a
//! feminine or a neuter takes in its bare genitive plural — `окно — окон`.

use vstd::prelude::*;

use crate::alphabet::is_vowel;
use crate::grammar::case::Case;
use crate::grammar::declension::index::Kind;
use crate::grammar::declension::spelling::{parted, parted_of};
use crate::grammar::gender::{Animacy, Gender};
use crate::grammar::number::Number;
use crate::rules::svod::soft_sign::before_l::keeps;
use crate::rules::svod::soft_sign::SIGN;
use crate::text::{ends_with, ends_with_str, head_of, joined, owned, push_letter, rest_of};

verus! {

/// What a stated noun's fleeting vowel depends on besides the cell.
#[derive(Debug, Clone, Copy, PartialEq, Eq, Structural)]
pub struct Word {
    /// The gender.
    pub gender: Gender,
    /// What the stem ends in.
    pub kind: crate::grammar::declension::index::Kind,
    /// The animacy, which decides the accusative.
    pub animacy: Animacy,
    /// Whether the lemma declines by the first declension.
    pub opens: bool,
}

/// Whether a cell is the bare genitive plural, or the accusative that
/// repeats it.
#[verifier::allow_in_spec]
pub fn bare(case: Case, number: Number, animacy: Animacy) -> bool
    returns
        number is Plural && (case.merged() is Genitive || (case.merged() is Accusative
            && animacy is Animate)),
{
    match number {
        Number::Plural => match case.merged() {
            Case::Genitive => true,
            Case::Accusative => matches!(animacy, Animacy::Animate),
            _ => false,
        },
        Number::Singular => false,
    }
}

/// Whether a cell is the masculine's own form: the nominative singular, and
/// the accusative that repeats it.
#[verifier::allow_in_spec]
pub fn standing(case: Case, number: Number, animacy: Animacy) -> bool
    returns
        number is Singular && (case.merged() is Nominative || case.merged() is Vocative || (
        case.merged() is Accusative && animacy is Inanimate)),
{
    match number {
        Number::Singular => match case.merged() {
            Case::Nominative | Case::Vocative => true,
            Case::Accusative => matches!(animacy, Animacy::Inanimate),
            _ => false,
        },
        Number::Plural => false,
    }
}

/// The last position before a given one at which a vowel stands, `-1` when
/// none does.
pub open spec fn last_vowel_before(s: Seq<char>, end: int) -> int
    decreases end,
{
    if end <= 0 {
        -1
    } else if is_vowel(s[end - 1]) {
        end - 1
    } else {
        last_vowel_before(s, end - 1)
    }
}

proof fn last_vowel_in(s: Seq<char>, end: int)
    requires
        0 <= end <= s.len(),
    ensures
        -1 <= last_vowel_before(s, end) < end,
        last_vowel_before(s, end) >= 0 ==> is_vowel(s[last_vowel_before(s, end)]),
        forall|k: int| last_vowel_before(s, end) < k < end ==> !is_vowel(s[k]),
    decreases end,
{
    if end > 0 && !is_vowel(s[end - 1]) {
        last_vowel_in(s, end - 1);
    }
}

/// What stands where the fleeting vowel left: the glide after a vowel, the
/// soft sign where the code keeps it after an `е` or `ё`, nothing otherwise.
pub open spec fn left_of(held: char, before: Option<char>, after: Option<char>) -> Option<char> {
    if before matches Some(b) && is_vowel(b) {
        Some('й')
    } else if !(held == 'е' || held == 'ё') {
        None
    } else {
        match (before, after) {
            (Some(b), Some(a)) => if keeps(b, a) {
                Some(SIGN)
            } else {
                None
            },
            _ => None,
        }
    }
}

/// A stem with its fleeting vowel dropped: the last vowel before its closing
/// consonant.
pub open spec fn dropped_of(stem: Seq<char>) -> Seq<char> {
    if stem.len() == 0 || is_vowel(stem.last()) || last_vowel_before(stem, stem.len() - 1) < 0 {
        stem
    } else {
        let at = last_vowel_before(stem, stem.len() - 1);
        let before = if at > 0 { Some(stem[at - 1]) } else { None };
        let mark = left_of(stem[at], before, Some(stem[at + 1]));
        stem.subrange(0, at) + match mark {
            Some(c) => seq![c],
            None => Seq::empty(),
        } + stem.subrange(at + 1, stem.len() as int)
    }
}

/// Reports what stands where the fleeting vowel left.
pub fn left(held: char, before: Option<char>, after: Option<char>) -> (res: Option<char>)
    ensures
        res == left_of(held, before, after),
{
    match before {
        Some(b) => if is_vowel(b) {
            return Some('й');
        },
        None => {},
    }
    if !(held == 'е' || held == 'ё') {
        return None;
    }
    match (before, after) {
        (Some(b), Some(a)) => if keeps(b, a) {
            Some(SIGN)
        } else {
            None
        },
        _ => None,
    }
}

/// The fleeting vowel of a stem: the last vowel before its closing
/// consonant, and where it stands. A stem closing on a vowel has none.
pub fn fleeting(stem: &str) -> (res: Option<(usize, char)>)
    ensures
        match res {
            Some((at, held)) => stem@.len() > 0 && !is_vowel(stem@.last()) && at as int
                == last_vowel_before(stem@, stem@.len() - 1) && held == stem@[at as int] && at + 1
                < stem@.len(),
            None => stem@.len() == 0 || is_vowel(stem@.last()) || last_vowel_before(
                stem@,
                stem@.len() - 1,
            ) < 0,
        },
{
    let n = stem.unicode_len();
    if n == 0 || is_vowel(stem.get_char(n - 1)) {
        return None;
    }
    proof {
        last_vowel_in(stem@, n - 1);
    }
    let mut i = n - 1;
    while i > 0
        invariant
            n == stem@.len(),
            n > 0,
            !is_vowel(stem@.last()),
            i <= n - 1,
            last_vowel_before(stem@, n - 1) < i,
            -1 <= last_vowel_before(stem@, n - 1) < n - 1,
            last_vowel_before(stem@, n - 1) >= 0 ==> is_vowel(stem@[last_vowel_before(stem@, n - 1)]),
            forall|k: int| last_vowel_before(stem@, n - 1) < k < n - 1 ==> !is_vowel(stem@[k]),
        decreases i,
    {
        let held = stem.get_char(i - 1);
        if is_vowel(held) {
            return Some((i - 1, held));
        }
        i = i - 1;
    }
    None
}

/// Drops the fleeting vowel of a masculine stem: `отец — отц`, `палец —
/// пальц`, `боец — бойц`.
pub fn dropped(stem: &str) -> (res: String)
    ensures
        res@ == dropped_of(stem@),
{
    let (at, held) = match fleeting(stem) {
        Some(found) => found,
        None => return owned(stem),
    };
    let n = stem.unicode_len();
    let before = if at > 0 { Some(stem.get_char(at - 1)) } else { None };
    let after = stem.get_char(at + 1);
    let mark = left(held, before, Some(after));
    let mut written = owned(head_of(stem, at));
    match mark {
        Some(c) => push_letter(&mut written, c),
        None => {},
    }
    written.append(rest_of(stem, at + 1));
    proof {
        let m = match mark {
            Some(c) => seq![c],
            None => Seq::<char>::empty(),
        };
        assert(written@ =~= stem@.subrange(0, at as int) + m + stem@.subrange(
            at as int + 1,
            stem@.len() as int,
        ));
    }
    written
}

/// A parted stem with the soft sign a soft `л` keeps before the bare ending.
pub open spec fn kept_of(parted: Seq<char>, kind: Kind) -> Seq<char> {
    if kind is Soft && ends_with(parted, "л"@) {
        parted + "ь"@
    } else {
        parted
    }
}

/// The stem of a stated noun with a fleeting vowel, in a cell.
pub open spec fn fleeting_of(stem: Seq<char>, word: Word, case: Case, number: Number, stressed: bool) -> Seq<char> {
    if word.gender is Masculine && !word.opens {
        if standing(case, number, word.animacy) {
            stem
        } else {
            dropped_of(stem)
        }
    } else if bare(case, number, word.animacy) {
        kept_of(parted_of(stem, stressed), word.kind)
    } else {
        stem
    }
}

/// The stem a stated noun with a fleeting vowel takes in a cell: a
/// masculine drops the vowel under every ending, a feminine or a neuter
/// takes one in its bare genitive plural.
pub fn of(stem: &str, word: Word, case: Case, number: Number, stressed: bool) -> (res: String)
    ensures
        res@ == fleeting_of(stem@, word, case, number, stressed),
{
    if matches!(word.gender, Gender::Masculine) && !word.opens {
        return if standing(case, number, word.animacy) {
            owned(stem)
        } else {
            dropped(stem)
        };
    }
    if bare(case, number, word.animacy) {
        let held = parted(stem, stressed);
        return kept(held.as_str(), word.kind);
    }
    owned(stem)
}

/// A parted stem with the soft sign a soft `л` keeps: `земля — земель`.
pub fn kept(parted: &str, kind: Kind) -> (res: String)
    ensures
        res@ == kept_of(parted@, kind),
{
    if matches!(kind, Kind::Soft) && ends_with_str(parted, "л") {
        return joined(parted, "ь");
    }
    owned(parted)
}

} // verus!
