//! The pronouns that decline by a table of their own: `тот`, `этот`, `весь`,
//! `мой`, `чей`, `один`, `кто`, `что` and their kin. Each is written as its
//! stem and the pattern's ending, and read back by writing every cell.

pub mod endings;

use vstd::prelude::*;

use self::endings::{table_of, Pattern};
use super::agreed::{agreed_cell, agreed_order, Cell};
use super::spelling::{fitted, fitted_of};
use crate::grammar::case::Case;
use crate::grammar::gender::{Animacy, Gender};
use crate::grammar::number::Number;
use crate::grammar::stem::Stem;
use crate::text::{eq_str, joined, lower_cyrillic, lowercase, lowered, owned, seen};

verus! {

/// One pronoun that declines this way: its dictionary form, its stem, its
/// pattern, the shape of its stem and whether its endings carry the stress.
#[derive(Debug, Clone, Copy, PartialEq, Eq, Hash)]
pub struct Declining {
    /// The dictionary form, which is the nominative masculine singular.
    pub dictionary: &'static str,
    /// The stem the endings go on.
    pub stem: &'static str,
    /// The pattern.
    pub pattern: Pattern,
    /// The shape of the stem.
    pub shape: Stem,
    /// Whether the endings carry the stress.
    pub stressed: bool,
}

/// How many pronouns decline this way.
pub const COUNT: usize = 16;

/// Their dictionary forms.
pub const DICTIONARIES: [&'static str; 16] = [
    "тот", "этот", "весь", "сей", "мой", "твой", "свой", "чей", "наш", "ваш", "один", "одна", "одно",
    "сам", "кто", "что",
];

/// Their stems.
pub const STEMS: [&'static str; 16] = [
    "т", "эт", "вс", "с", "мо", "тво", "сво", "чь", "наш", "ваш", "одн", "одн", "одн", "сам", "к", "ч",
];

/// Their patterns.
pub const PATTERNS: [Pattern; 16] = [
    Pattern::Older,
    Pattern::Newer,
    Pattern::Older,
    Pattern::Newer,
    Pattern::Newer,
    Pattern::Newer,
    Pattern::Newer,
    Pattern::Newer,
    Pattern::Newer,
    Pattern::Newer,
    Pattern::Newer,
    Pattern::Newer,
    Pattern::Newer,
    Pattern::Newer,
    Pattern::Older,
    Pattern::Older,
];

/// The shapes of their stems.
pub const SHAPES: [Stem; 16] = [
    Stem::Hard,
    Stem::Hard,
    Stem::Soft,
    Stem::Soft,
    Stem::Soft,
    Stem::Soft,
    Stem::Soft,
    Stem::Soft,
    Stem::Soft,
    Stem::Soft,
    Stem::Hard,
    Stem::Hard,
    Stem::Hard,
    Stem::Hard,
    Stem::Hard,
    Stem::Soft,
];

/// Whether their endings carry the stress.
pub const STRESSED: [bool; 16] = [
    false, false, true, true, true, true, true, true, false, false, true, true, true, false, true, true,
];

/// The pronoun at a position of the table.
pub open spec fn entry_of(i: int) -> Declining {
    Declining {
        dictionary: DICTIONARIES@[i],
        stem: STEMS@[i],
        pattern: PATTERNS@[i],
        shape: SHAPES@[i],
        stressed: STRESSED@[i],
    }
}

/// The pronoun at a position of the table.
pub fn entry(i: usize) -> (res: Declining)
    requires
        i < COUNT,
    ensures
        res == entry_of(i as int),
{
    Declining {
        dictionary: DICTIONARIES[i],
        stem: STEMS[i],
        pattern: PATTERNS[i],
        shape: SHAPES[i],
        stressed: STRESSED[i],
    }
}

/// The first pronoun of the table from a position on whose dictionary form
/// is the word given.
pub open spec fn found_from(word: Seq<char>, i: int) -> Option<Declining>
    decreases 16 - i,
{
    if i < 0 || i >= 16 {
        None
    } else if DICTIONARIES@[i]@ == word {
        Some(entry_of(i))
    } else {
        found_from(word, i + 1)
    }
}

/// The pronoun a dictionary form names, read in lower case.
pub open spec fn declining_of(dictionary: Seq<char>) -> Option<Declining> {
    found_from(lowercase(dictionary), 0)
}

/// The pronoun of the table a lowered dictionary form names.
pub fn find(word: &str) -> (res: Option<Declining>)
    ensures
        res == found_from(word@, 0),
{
    let mut i: usize = 0;
    while i < COUNT
        invariant
            i <= 16,
            found_from(word@, 0) == found_from(word@, i as int),
        decreases 16 - i,
    {
        if eq_str(DICTIONARIES[i], word) {
            return Some(entry(i));
        }
        i = i + 1;
    }
    None
}

/// The pronoun a dictionary form names, in whatever case it is written:
/// `тот` — `т`, older, hard. A word that declines another way is not here.
pub fn declining(dictionary: &str) -> (res: Option<Declining>)
    ensures
        res == declining_of(dictionary@),
        lower_cyrillic(dictionary@) ==> res == found_from(dictionary@, 0),
{
    let held = lowered(dictionary);
    find(held.as_str())
}

/// A pronoun written in a cell.
pub open spec fn pronoun_of(held: Declining, gender: Gender, number: Number, case: Case, animacy: Animacy) -> Seq<
    char,
> {
    if case is Nominative && number is Singular && gender is Masculine {
        held.dictionary@
    } else {
        let ending = table_of(held.pattern, held.shape, gender, number).of(case, animacy);
        held.stem@ + fitted_of(held.stem@, ending@, held.stressed)
    }
}

/// A pronoun, named by its dictionary form, written in a cell.
pub open spec fn written_of(dictionary: Seq<char>, gender: Gender, number: Number, case: Case, animacy: Animacy) -> Option<
    Seq<char>,
> {
    match declining_of(dictionary) {
        Some(held) => Some(pronoun_of(held, gender, number, case, animacy)),
        None => None,
    }
}

/// Writes a pronoun in a cell: the dictionary form itself in the nominative
/// masculine singular, its stem and the pattern's ending elsewhere. `тот` —
/// `тем`, `весь` — `всём`, `наш` — `нашем`.
pub fn written(dictionary: &str, gender: Gender, number: Number, case: Case, animacy: Animacy) -> (res:
    Option<String>)
    ensures
        seen(res) == written_of(dictionary@, gender, number, case, animacy),
        lower_cyrillic(dictionary@) ==> seen(res) == match found_from(dictionary@, 0) {
            Some(held) => Some(pronoun_of(held, gender, number, case, animacy)),
            None => None,
        },
{
    let held = match declining(dictionary) {
        Some(held) => held,
        None => return None,
    };
    Some(write(held, gender, number, case, animacy))
}

/// Writes a pronoun of the table in a cell.
pub fn write(held: Declining, gender: Gender, number: Number, case: Case, animacy: Animacy) -> (res: String)
    ensures
        res@ == pronoun_of(held, gender, number, case, animacy),
{
    if matches!(case, Case::Nominative) && matches!(number, Number::Singular) && matches!(
        gender,
        Gender::Masculine
    ) {
        return owned(held.dictionary);
    }
    let ending = endings::of(held.pattern, held.shape, gender, number, case, animacy);
    let spelled = fitted(held.stem, ending, held.stressed);
    joined(held.stem, spelled.as_str())
}

/// The gender a cell is written in: its own, or the masculine for the
/// plural.
pub open spec fn cell_gender(cell: Cell) -> Gender {
    match cell.gender {
        Some(gender) => gender,
        None => Gender::Masculine,
    }
}

/// Whether a cell of a pronoun is written as the lowered word read.
pub open spec fn names_cell(dictionary: Seq<char>, animacy: Animacy, word: Seq<char>) -> spec_fn(Cell) -> bool {
    |cell: Cell|
        written_of(dictionary, cell_gender(cell), cell.number, cell.case, animacy) == Some(word)
}

/// The cells a word, already lowered, reads into as a form of a pronoun.
pub open spec fn cells_lowered(word: Seq<char>, dictionary: Seq<char>, animacy: Animacy) -> Seq<Cell> {
    agreed_order().filter(names_cell(dictionary, animacy, word))
}

/// The cells of a pronoun's paradigm a written word reads into, in whatever
/// case the word is written: `тем` from `тот` is the instrumental singular
/// of the masculine and the neuter, and the dative plural.
pub fn cells(word: &str, dictionary: &str, animacy: Animacy) -> (res: Vec<Cell>)
    ensures
        res@ == cells_lowered(lowercase(word@), dictionary@, animacy),
        lower_cyrillic(word@) ==> res@ == cells_lowered(word@, dictionary@, animacy),
        lower_cyrillic(word@) ==> forall|i: int|
            0 <= i < 24 && #[trigger] names_cell(dictionary@, animacy, word@)(agreed_cell(i))
                ==> res@.contains(agreed_cell(i)),
        lower_cyrillic(dictionary@) ==> declining_of(dictionary@) == found_from(dictionary@, 0),
{
    let held = lowered(word);
    cells_read(held.as_str(), dictionary, animacy)
}

/// The cells of a pronoun's paradigm a word, already lowered, reads into.
pub fn cells_read(held: &str, dictionary: &str, animacy: Animacy) -> (res: Vec<Cell>)
    ensures
        res@ == cells_lowered(held@, dictionary@, animacy),
        forall|i: int|
            0 <= i < 24 && #[trigger] names_cell(dictionary@, animacy, held@)(agreed_cell(i))
                ==> res@.contains(agreed_cell(i)),
        lower_cyrillic(dictionary@) ==> declining_of(dictionary@) == found_from(dictionary@, 0),
{
    let ghost pred = names_cell(dictionary@, animacy, held@);
    let mut found: Vec<Cell> = Vec::new();
    let pronoun = match declining(dictionary) {
        Some(pronoun) => pronoun,
        None => {
            proof {
                assert(agreed_order().filter(pred) =~= Seq::<Cell>::empty()) by {
                    broadcast use vstd::seq_lib::group_filter_ensures;

                    if agreed_order().filter(pred).len() > 0 {
                        assert(pred(agreed_order().filter(pred)[0]));
                    }
                }
            }
            return found;
        },
    };
    let mut i: usize = 0;
    while i < 24
        invariant
            i <= 24,
            pred == names_cell(dictionary@, animacy, held@),
            declining_of(dictionary@) == Some(pronoun),
            found@ == agreed_order().take(i as int).filter(pred),
        decreases 24 - i,
    {
        let cell = if i < 18 {
            Cell {
                case: Case::STATED[i % 6],
                number: Number::Singular,
                gender: Some(Gender::STATED[i / 6]),
            }
        } else {
            Cell { case: Case::STATED[i % 6], number: Number::Plural, gender: None }
        };
        proof {
            reveal(Seq::filter);
            assert(agreed_order().take(i as int + 1).drop_last() =~= agreed_order().take(i as int));
            assert(agreed_order().take(i as int + 1).last() == cell);
        }
        let gender = match cell.gender {
            Some(gender) => gender,
            None => Gender::Masculine,
        };
        let form = write(pronoun, gender, cell.number, cell.case, animacy);
        let names = eq_str(form.as_str(), held);
        if names {
            found.push(cell);
        }
        i = i + 1;
    }
    assert(agreed_order().take(24) =~= agreed_order());
    proof {
        assert forall|i: int|
            0 <= i < 24 && #[trigger] names_cell(dictionary@, animacy, held@)(agreed_cell(i))
                implies found@.contains(agreed_cell(i)) by {
            assert(agreed_order()[i] == agreed_cell(i));
            agreed_order().lemma_filter_contains(pred, i);
        }
    }
    found
}

/// Every cell of a pronoun that declines this way is read back from the
/// form it is written in: the reading of a written form holds the cell that
/// wrote it.
pub proof fn written_reads_back(dictionary: Seq<char>, animacy: Animacy, i: int)
    requires
        declining_of(dictionary) is Some,
        0 <= i < 24,
    ensures
        ({
            let cell = agreed_cell(i);
            let form = pronoun_of(
                declining_of(dictionary).unwrap(),
                cell_gender(cell),
                cell.number,
                cell.case,
                animacy,
            );
            cells_lowered(form, dictionary, animacy).contains(cell)
        }),
{
    let cell = agreed_cell(i);
    let form = pronoun_of(
        declining_of(dictionary).unwrap(),
        cell_gender(cell),
        cell.number,
        cell.case,
        animacy,
    );
    let pred = names_cell(dictionary, animacy, form);
    assert(pred(cell));
    assert(agreed_order()[i] == cell);
    agreed_order().lemma_filter_contains(pred, i);
}

/// What tells two dictionary forms of the table apart: the length and the
/// first and last letters.
spec fn marked(word: Seq<char>) -> (int, char, char) {
    (word.len() as int, word[0], word.last())
}

/// No two pronouns of the table share a dictionary form.
proof fn dictionaries_differ(i: int, j: int)
    requires
        0 <= i < 16,
        0 <= j < 16,
        i != j,
    ensures
        DICTIONARIES@[i]@ != DICTIONARIES@[j]@,
{
    reveal_strlit("тот");
    reveal_strlit("этот");
    reveal_strlit("весь");
    reveal_strlit("сей");
    reveal_strlit("мой");
    reveal_strlit("твой");
    reveal_strlit("свой");
    reveal_strlit("чей");
    reveal_strlit("наш");
    reveal_strlit("ваш");
    reveal_strlit("один");
    reveal_strlit("одна");
    reveal_strlit("одно");
    reveal_strlit("сам");
    reveal_strlit("кто");
    reveal_strlit("что");
    if DICTIONARIES@[i]@ == DICTIONARIES@[j]@ {
        assert(marked(DICTIONARIES@[i]@) == marked(DICTIONARIES@[j]@));
    }
}

/// The search from a position at or before a pronoun's own finds that
/// pronoun.
proof fn found_from_reaches(i: int, k: int)
    requires
        0 <= k <= i < 16,
    ensures
        found_from(DICTIONARIES@[i]@, k) == Some(entry_of(i)),
    decreases i - k,
{
    if k < i {
        dictionaries_differ(k, i);
        found_from_reaches(i, k + 1);
    }
}

/// Every pronoun of the table is found by its own dictionary form, already
/// lowered: `тот` names `т`, older, hard.
pub proof fn every_listed_pronoun_is_found(i: int)
    requires
        0 <= i < 16,
    ensures
        found_from(DICTIONARIES@[i]@, 0) == Some(entry_of(i)),
{
    found_from_reaches(i, 0);
}

/// A cell a pronoun is read into states a gender exactly when it is
/// singular, and a word that names no pronoun of the table reads into
/// nothing.
pub proof fn a_read_cell_has_a_gender_just_in_the_singular(
    word: Seq<char>,
    dictionary: Seq<char>,
    animacy: Animacy,
)
    ensures
        forall|k: int|
            0 <= k < cells_lowered(word, dictionary, animacy).len() ==> (
            #[trigger] cells_lowered(word, dictionary, animacy)[k].gender is None
                <==> cells_lowered(word, dictionary, animacy)[k].number is Plural),
        declining_of(dictionary) is None ==> cells_lowered(word, dictionary, animacy).len() == 0,
{
    let pred = names_cell(dictionary, animacy, word);
    let found = cells_lowered(word, dictionary, animacy);
    assert forall|k: int| 0 <= k < found.len() implies (#[trigger] found[k].gender is None
        <==> found[k].number is Plural) by {
        assert(found.contains(found[k]));
        agreed_order().lemma_filter_contains_rev(pred, found[k]);
        let j = choose|j: int| 0 <= j < agreed_order().len() && agreed_order()[j] == found[k];
        assert(agreed_order()[j] == agreed_cell(j));
    }
    if declining_of(dictionary) is None {
        broadcast use vstd::seq_lib::group_filter_ensures;

        if found.len() > 0 {
            assert(pred(found[0]));
        }
    }
}


} // verus!
