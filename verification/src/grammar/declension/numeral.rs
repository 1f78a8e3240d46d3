//! The declension of the numerals: the ones stated whole, the twofold ones,
//! the ones that follow a pattern, and the compound tens and hundreds that
//! decline in both halves — `пятьдесят`, `пятидесяти`; `двести`, `двухсот`.
//!
//! Every word is lowered once, where it comes in; the halves of a compound
//! are read as they stand in the lowered word.

pub mod paradigm;
pub mod whole;

use vstd::prelude::*;

use self::paradigm::Paradigm;
use self::whole::{cells_lowered, oblique_lowered, oblique_of, whole_from, TWOFOLD, WHOLE};
use crate::grammar::case::Case;
use crate::grammar::closed::numeral::{CARDINAL, COLLECTIVE};
use crate::grammar::gender::Animacy;
use crate::text::{among, lower_cyrillic, drop_last, ends_with, starts_with, eq_str, is_among, joined, lowercase, lowered, owned, seen, strip_suffix, without_suffix};

verus! {

/// A numeral that declines by a pattern: the stem its endings go on, and
/// the pattern.
#[derive(Debug, Clone, Copy, PartialEq, Eq, Hash)]
pub struct Declining<'a> {
    /// The stem.
    pub stem: &'a str,
    /// The pattern.
    pub paradigm: Paradigm,
}

/// The pattern a numeral, already lowered, declines by.
pub open spec fn pattern_of(held: Seq<char>) -> Option<Paradigm> {
    if whole_from(held, 0) is Some || held.len() == 0 {
        None
    } else if held.last() == 'ь' && among(held, CARDINAL@) {
        Some(Paradigm::Third)
    } else if among(held, COLLECTIVE@) {
        Some(Paradigm::Collective)
    } else {
        None
    }
}

/// A numeral's stem and pattern: the stem is the word without its last
/// letter, but `восемь` loses its fleeting vowel too.
pub open spec fn declining_of(dictionary: Seq<char>) -> Option<(Seq<char>, Paradigm)> {
    match pattern_of(lowercase(dictionary)) {
        None => None,
        Some(pattern) => Some(
            (
                if dictionary == "восемь"@ {
                    "восьм"@
                } else if dictionary.len() == 0 {
                    dictionary
                } else {
                    dictionary.drop_last()
                },
                pattern,
            ),
        ),
    }
}

/// The pattern of a lowered numeral.
pub fn pattern(held: &str) -> (res: Option<Paradigm>)
    ensures
        res == pattern_of(held@),
{
    if cells_lowered(held).is_some() {
        return None;
    }
    let n = held.unicode_len();
    if n == 0 {
        return None;
    }
    if held.get_char(n - 1) == 'ь' && is_among(held, &CARDINAL) {
        return Some(Paradigm::Third);
    }
    if is_among(held, &COLLECTIVE) {
        return Some(Paradigm::Collective);
    }
    None
}

/// The stem and pattern of a numeral that declines by one: `пять` — `пят`,
/// the third declension; `восемь` — `восьм`; `двое` — `дво`, collective.
pub fn declining(dictionary: &str) -> (res: Option<Declining<'_>>)
    ensures
        match res {
            Some(held) => declining_of(dictionary@) == Some((held.stem@, held.paradigm)),
            None => declining_of(dictionary@) is None,
        },
        lower_cyrillic(dictionary@) ==> match res {
            Some(held) => pattern_of(dictionary@) == Some(held.paradigm),
            None => pattern_of(dictionary@) is None,
        },
{
    let held = lowered(dictionary);
    let paradigm = match pattern(held.as_str()) {
        Some(paradigm) => paradigm,
        None => return None,
    };
    let stem: &str = if eq_str(dictionary, "восемь") {
        "восьм"
    } else {
        shortened(dictionary)
    };
    Some(Declining { stem, paradigm })
}

/// A word without its last letter; the empty word stays empty.
pub fn shortened(dictionary: &str) -> (res: &str)
    ensures
        res@ == (if dictionary@.len() == 0 {
            dictionary@
        } else {
            dictionary@.drop_last()
        }),
{
    if dictionary.unicode_len() == 0 {
        dictionary
    } else {
        drop_last(dictionary)
    }
}

/// A compound numeral split into the two numerals it grew out of: `двести`
/// into `два` and `сто`, a ten in `-десят` into its count and `десять`, a
/// hundred in `-сот` or `-ста` into its count and `сто`. The count must
/// decline on its own.
pub open spec fn halves_of(dictionary: Seq<char>) -> Option<(Seq<char>, Seq<char>)>
    decreases dictionary.len(), 0int,
{
    proof {
        reveal_strlit("десят");
        reveal_strlit("сот");
        reveal_strlit("ста");
    }
    if dictionary == "двести"@ {
        Some(("два"@, "сто"@))
    } else if ends_with(dictionary, "десят"@) && ({
        let first = dictionary.subrange(0, dictionary.len() - 5);
        declines_of(first) || whole_from(first, 0) is Some
    }) {
        Some((dictionary.subrange(0, dictionary.len() - 5), "десять"@))
    } else if ends_with(dictionary, "сот"@) && ({
        let first = dictionary.subrange(0, dictionary.len() - 3);
        declines_of(first) || whole_from(first, 0) is Some
    }) {
        Some((dictionary.subrange(0, dictionary.len() - 3), "сто"@))
    } else if ends_with(dictionary, "ста"@) && ({
        let first = dictionary.subrange(0, dictionary.len() - 3);
        declines_of(first) || whole_from(first, 0) is Some
    }) {
        Some((dictionary.subrange(0, dictionary.len() - 3), "сто"@))
    } else {
        None
    }
}

/// Whether a numeral, already lowered, declines here at all.
pub open spec fn declines_of(held: Seq<char>) -> bool
    decreases held.len(), 1int,
{
    whole_from(held, 0) is Some || oblique_of(held) is Some || declining_of(held) is Some
        || halves_of(held) is Some
}

/// Splits a compound numeral into its halves.
pub fn halves(dictionary: &str) -> (res: Option<(&str, &'static str)>)
    ensures
        match res {
            Some((first, second)) => halves_of(dictionary@) == Some((first@, second@)),
            None => halves_of(dictionary@) is None,
        },
        res matches Some((first, _)) ==> first@.len() < dictionary@.len(),
    decreases dictionary@.len(), 0int,
{
    proof {
        reveal_strlit("двести");
        reveal_strlit("два");
        reveal_strlit("десят");
        reveal_strlit("сот");
        reveal_strlit("ста");
    }
    if eq_str(dictionary, "двести") {
        return Some(("два", "сто"));
    }
    match strip_suffix(dictionary, "десят") {
        Some(first) => if declines_lowered(first) || cells_lowered(first).is_some() {
            return Some((first, "десять"));
        },
        None => {},
    }
    match strip_suffix(dictionary, "сот") {
        Some(first) => if declines_lowered(first) || cells_lowered(first).is_some() {
            return Some((first, "сто"));
        },
        None => {},
    }
    match strip_suffix(dictionary, "ста") {
        Some(first) => if declines_lowered(first) || cells_lowered(first).is_some() {
            return Some((first, "сто"));
        },
        None => {},
    }
    None
}

/// Reports whether a lowered numeral declines here.
pub fn declines_lowered(held: &str) -> (res: bool)
    ensures
        res == declines_of(held@),
    decreases held@.len(), 1int,
{
    cells_lowered(held).is_some() || oblique_lowered(held).is_some() || declining(held).is_some()
        || halves(held).is_some()
}

/// Reports whether a numeral declines here, in whatever case it is written.
pub fn declines(dictionary: &str) -> (res: bool)
    ensures
        res == declines_of(lowercase(dictionary@)),
        lower_cyrillic(dictionary@) ==> res == declines_of(dictionary@),
{
    let held = lowered(dictionary);
    declines_lowered(held.as_str())
}

/// The form of the hundreds in a compound's oblique cases.
#[verifier::allow_in_spec]
pub fn hundreds(case: Case) -> &'static str
    returns
        match case.merged() {
            Case::Dative => "стам",
            Case::Instrumental => "стами",
            Case::Prepositional => "стах",
            _ => "сот",
        },
{
    match case.merged() {
        Case::Dative => "стам",
        Case::Instrumental => "стами",
        Case::Prepositional => "стах",
        _ => "сот",
    }
}

/// A numeral that declines by a pattern, written in a case.
pub open spec fn by_pattern_of(held: Seq<char>, case: Case, animacy: Animacy) -> Option<Seq<char>> {
    match declining_of(held) {
        None => None,
        Some((stem, pattern)) => match pattern.ending(case, animacy) {
            None => None,
            Some(ending) => Some(stem + ending@),
        },
    }
}

/// Whether a case is one the compound says whole: the nominative, the
/// vocative, and the accusative of things.
pub open spec fn says_whole(case: Case, animacy: Animacy) -> bool {
    case.merged() is Nominative || case.merged() is Vocative || (case.merged() is Accusative
        && animacy is Inanimate)
}

/// A numeral, already lowered, written in a case.
pub open spec fn written_of(held: Seq<char>, case: Case, animacy: Animacy) -> Option<Seq<char>>
    decreases held.len(),
{
    match whole_from(held, 0) {
        Some(cells) => Some(cells.of(case, animacy)@),
        None => match oblique_of(held) {
            Some(oblique) => if case.merged() is Nominative || case.merged() is Vocative
                || case.merged() is Accusative {
                Some(held)
            } else {
                Some(oblique)
            },
            None => if declining_of(held) is Some {
                by_pattern_of(held, case, animacy)
            } else {
                match halves_of(held) {
                    None => None,
                    Some((first, second)) => if says_whole(case, animacy) {
                        Some(held)
                    } else if first.len() < held.len() {
                        match written_of(first, case, Animacy::Inanimate) {
                            None => None,
                            Some(ahead) => if second == "сто"@ {
                                Some(ahead + hundreds(case)@)
                            } else {
                                match by_pattern_of(second, case, Animacy::Inanimate) {
                                    None => None,
                                    Some(behind) => Some(ahead + behind),
                                }
                            },
                        }
                    } else {
                        None
                    },
                }
            },
        },
    }
}

/// A numeral that declines by a pattern, written in a case.
fn by_pattern(held: &str, case: Case, animacy: Animacy) -> (res: Option<String>)
    ensures
        seen(res) == by_pattern_of(held@, case, animacy),
{
    let numeral = match declining(held) {
        Some(numeral) => numeral,
        None => return None,
    };
    match numeral.paradigm.ending(case, animacy) {
        Some(ending) => Some(joined(numeral.stem, ending)),
        None => None,
    }
}

/// Writes a lowered numeral in a case.
pub fn written_lowered(held: &str, case: Case, animacy: Animacy) -> (res: Option<String>)
    ensures
        seen(res) == written_of(held@, case, animacy),
    decreases held@.len(),
{
    match cells_lowered(held) {
        Some(cells) => return Some(owned(cells.of(case, animacy))),
        None => {},
    }
    match oblique_lowered(held) {
        Some(oblique) => {
            return match case.merged() {
                Case::Nominative | Case::Vocative | Case::Accusative => Some(owned(held)),
                _ => Some(oblique),
            };
        },
        None => {},
    }
    if declining(held).is_some() {
        return by_pattern(held, case, animacy);
    }
    let (first, second) = match halves(held) {
        Some(held) => held,
        None => return None,
    };
    let merged = case.merged();
    if matches!(merged, Case::Nominative) || matches!(merged, Case::Vocative) || (matches!(
        merged,
        Case::Accusative
    ) && matches!(animacy, Animacy::Inanimate)) {
        return Some(owned(held));
    }
    let ahead = match written_lowered(first, case, Animacy::Inanimate) {
        Some(ahead) => ahead,
        None => return None,
    };
    if eq_str(second, "сто") {
        return Some(joined(ahead.as_str(), hundreds(case)));
    }
    match by_pattern(second, case, Animacy::Inanimate) {
        Some(behind) => Some(joined(ahead.as_str(), behind.as_str())),
        None => None,
    }
}

/// Writes a numeral in a case, whatever case its letters are written in:
/// `пять` — `пяти`, `двести` — `двухсот`, `пятьдесят` — `пятидесяти`.
/// A word that is no numeral declines by nothing.
pub fn written(dictionary: &str, case: Case, animacy: Animacy) -> (res: Option<String>)
    ensures
        seen(res) == written_of(lowercase(dictionary@), case, animacy),
        lower_cyrillic(dictionary@) ==> seen(res) == written_of(dictionary@, case, animacy),
{
    let held = lowered(dictionary);
    written_lowered(held.as_str(), case, animacy)
}

/// Whether a numeral writes a word in a case.
pub open spec fn writes_in(dictionary: Seq<char>, animacy: Animacy, word: Seq<char>) -> spec_fn(Case) -> bool {
    |case: Case| written_of(lowercase(dictionary), case, animacy) == Some(word)
}

/// The cases, of the six every paradigm states, a numeral writes a word in,
/// in whatever case the word is written: `пяти` from `пять` is the
/// genitive, the dative and the prepositional.
pub fn cases(word: &str, dictionary: &str, animacy: Animacy) -> (res: Vec<Case>)
    ensures
        res@ == Case::STATED@.filter(writes_in(dictionary@, animacy, lowercase(word@))),
        lower_cyrillic(word@) ==> res@ == Case::STATED@.filter(writes_in(dictionary@, animacy, word@)),
        lower_cyrillic(word@) ==> forall|i: int|
            0 <= i < 6 && #[trigger] writes_in(dictionary@, animacy, word@)(Case::STATED@[i])
                ==> res@.contains(Case::STATED@[i]),
{
    let held = lowered(word);
    cases_read(held.as_str(), dictionary, animacy)
}

/// The cases, of the six every paradigm states, a numeral writes a word
/// already lowered in.
pub fn cases_read(held: &str, dictionary: &str, animacy: Animacy) -> (res: Vec<Case>)
    ensures
        res@ == Case::STATED@.filter(writes_in(dictionary@, animacy, held@)),
        forall|i: int|
            0 <= i < 6 && #[trigger] writes_in(dictionary@, animacy, held@)(Case::STATED@[i])
                ==> res@.contains(Case::STATED@[i]),
{
    let ghost pred = writes_in(dictionary@, animacy, held@);
    let mut found: Vec<Case> = Vec::new();
    let mut i: usize = 0;
    while i < 6
        invariant
            i <= 6,
            pred == writes_in(dictionary@, animacy, held@),
            found@ == Case::STATED@.take(i as int).filter(pred),
        decreases 6 - i,
    {
        let case = Case::STATED[i];
        proof {
            reveal(Seq::filter);
            assert(Case::STATED@.take(i as int + 1).drop_last() =~= Case::STATED@.take(i as int));
        }
        let names = match written(dictionary, case, animacy) {
            Some(form) => eq_str(form.as_str(), held),
            None => false,
        };
        if names {
            found.push(case);
        }
        i = i + 1;
    }
    assert(Case::STATED@.take(6) =~= Case::STATED@);
    proof {
        assert forall|i: int|
            0 <= i < 6 && #[trigger] writes_in(dictionary@, animacy, held@)(Case::STATED@[i])
                implies found@.contains(Case::STATED@[i]) by {
            Case::STATED@.lemma_filter_contains(pred, i);
        }
    }
    found
}


/// Every case a numeral is written in is read back from the form written
/// there.
pub proof fn numeral_cases_read_back(dictionary: Seq<char>, animacy: Animacy, i: int)
    requires
        0 <= i < 6,
        written_of(lowercase(dictionary), Case::STATED@[i], animacy) is Some,
    ensures
        Case::STATED@.filter(
            writes_in(dictionary, animacy, written_of(lowercase(dictionary), Case::STATED@[i], animacy).unwrap()),
        ).contains(Case::STATED@[i]),
{
    let form = written_of(lowercase(dictionary), Case::STATED@[i], animacy).unwrap();
    let pred = writes_in(dictionary, animacy, form);
    assert(pred(Case::STATED@[i]));
    Case::STATED@.lemma_filter_contains(pred, i);
}

/// The count a compound numeral grew out of declines on its own, and so
/// does the hundred it grew with.
pub proof fn the_halves_of_a_compound_decline(dictionary: Seq<char>)
    requires
        halves_of(dictionary) is Some,
    ensures
        declines_of(halves_of(dictionary).unwrap().0),
        halves_of(dictionary).unwrap().1 == "сто"@ ==> declines_of(halves_of(dictionary).unwrap().1),
{
    reveal_strlit("сто");
    reveal_strlit("два");
    reveal_strlit("двести");
    let (first, second) = halves_of(dictionary).unwrap();
    if dictionary == "двести"@ {
        assert(whole_from(first, 0) is Some) by {
            reveal_strlit("два");
            assert(WHOLE@[0]@ == "два"@);
        }
    }
    if second == "сто"@ {
        assert(oblique_of(second) is Some) by {
            reveal_strlit("сто");
            reveal_strlit("полтор");
            assert(TWOFOLD@[2]@ == "сто"@);
            assert(among(second, TWOFOLD@));
            assert(!starts_with(second, "полтор"@));
        }
    }
}

/// No numeral stated whole is a twofold one.
proof fn whole_is_not_twofold(held: Seq<char>, i: int)
    requires
        0 <= i <= 6,
        oblique_of(held) is Some,
    ensures
        whole_from(held, i) is None,
    decreases 6 - i,
{
    if i < 6 {
        whole_is_not_twofold(held, i + 1);
        reveal_strlit("два");
        reveal_strlit("две");
        reveal_strlit("три");
        reveal_strlit("четыре");
        reveal_strlit("оба");
        reveal_strlit("обе");
        reveal_strlit("сорок");
        reveal_strlit("девяносто");
        reveal_strlit("сто");
        reveal_strlit("полтор");
        let word = WHOLE@[i]@;
        if word == held {
            if starts_with(held, "полтор"@) {
                assert(held.subrange(0, 6)[0] == held[0]);
                assert(held[0] == 'п');
                assert(word[0] == 'д' || word[0] == 'т' || word[0] == 'ч' || word[0] == 'о');
                assert(false);
            } else {
                let j = choose|j: int| 0 <= j < TWOFOLD@.len() && TWOFOLD@[j]@ == held;
                assert(TWOFOLD@[j]@[0] == 'с' || TWOFOLD@[j]@[0] == 'д');
                assert(TWOFOLD@[j]@.len() >= 3);
                assert(word[0] == 'д' ==> word.len() == 3 && word[2] != 'т');
                assert(false);
            }
        }
    }
}

/// A twofold numeral says one form in every case but the first: `сорока`,
/// `девяноста`, `ста` in the genitive, the dative, the instrumental and the
/// prepositional alike.
pub proof fn a_twofold_numeral_says_one_oblique(
    held: Seq<char>,
    case: Case,
    other: Case,
    animacy: Animacy,
    other_animacy: Animacy,
)
    requires
        oblique_of(held) is Some,
        !(case.merged() is Nominative || case.merged() is Vocative || case.merged() is Accusative),
        !(other.merged() is Nominative || other.merged() is Vocative || other.merged() is Accusative),
    ensures
        written_of(held, case, animacy) == written_of(held, other, other_animacy),
        written_of(held, case, animacy) == oblique_of(held),
{
    whole_is_not_twofold(held, 0);
}


/// A numeral stated whole says its genitive and its prepositional alike in
/// `-х`, and its dative with that `-х` traded for `-м`: `трёх`, `трём`,
/// `о трёх`.
pub proof fn a_whole_numeral_trades_kh_for_m(held: Seq<char>, animacy: Animacy)
    requires
        whole_from(held, 0) is Some,
    ensures
        ({
            let genitive = written_of(held, Case::Genitive, animacy).unwrap();
            &&& written_of(held, Case::Genitive, animacy) is Some
            &&& genitive.len() > 1 && genitive.last() == 'х'
            &&& written_of(held, Case::Dative, animacy) == Some(genitive.drop_last().push('м'))
            &&& written_of(held, Case::Prepositional, animacy) == Some(genitive)
            &&& written_of(held, Case::Dative, animacy) != Some(genitive)
        }),
{
    self::whole::found_whole_cells_hang_together(held, 0);
}

} // verus!
