//! Reads a written noun form back into the cells of its paradigm.

use vstd::prelude::*;

use super::noun::{self, noun_stem_of, written_of};
use super::spelling::{parted, parted_of};
use crate::grammar::case::Case;
use crate::grammar::gender::{Animacy, Gender};
use crate::grammar::number::Number;
use crate::text::{folded, folding_is_settled, same};

verus! {

/// One cell of a noun's paradigm.
#[derive(Debug, Clone, Copy, PartialEq, Eq, Structural)]
pub struct Cell {
    /// The case.
    pub case: Case,
    /// The number.
    pub number: Number,
}

/// The cell at a position of the reading order: the singular, then the
/// plural, each by the six cases.
pub open spec fn noun_cell(i: int) -> Cell {
    Cell {
        case: Case::STATED@[i % 6],
        number: if i < 6 { Number::Singular } else { Number::Plural },
    }
}

/// Every cell of a noun's paradigm, in reading order.
pub open spec fn noun_order() -> Seq<Cell> {
    Seq::new(12, |i: int| noun_cell(i))
}

/// The cell at a position of the reading order.
pub fn cell_at(i: usize) -> (res: Cell)
    requires
        i < 12,
    ensures
        res == noun_cell(i as int),
{
    Cell { case: Case::STATED[i % 6], number: if i < 6 { Number::Singular } else { Number::Plural } }
}

/// Whether a written genitive plural is the bare one with its fleeting
/// vowel put in, under either stress.
pub open spec fn parts_into(nominative: Seq<char>, gender: Gender, cell: Cell, written: Seq<char>) -> bool {
    &&& cell.case.merged() is Genitive && cell.number is Plural
    &&& noun_stem_of(nominative, gender, Animacy::Inanimate, cell.case, cell.number) matches Some(stem)
    &&& noun::ending_of(nominative, gender, Animacy::Inanimate, cell.case, cell.number) matches Some(ending)
    &&& ending@.len() == 0
    &&& (folded(parted_of(stem, false)) == folded(written) || folded(parted_of(stem, true)) == folded(
        written,
    ))
}

/// Whether a noun writes a cell as the form read.
pub open spec fn reads_into(nominative: Seq<char>, gender: Gender, animacy: Animacy, written: Seq<char>) -> spec_fn(
    Cell,
) -> bool {
    |cell: Cell|
        written_of(nominative, gender, animacy, cell.case, cell.number) matches Some(held) && (folded(
            held,
        ) == folded(written) || parts_into(nominative, gender, cell, written))
}

/// Reports whether the bare genitive plural with its fleeting vowel is the
/// form read.
fn parts(nominative: &str, gender: Gender, cell: Cell, written: &str) -> (res: bool)
    ensures
        res == parts_into(nominative@, gender, cell, written@),
{
    if !(matches!(cell.case.merged(), Case::Genitive) && matches!(cell.number, Number::Plural)) {
        return false;
    }
    let stem = match noun::stem(nominative, gender, Animacy::Inanimate, cell.case, cell.number) {
        Some(stem) => stem,
        None => return false,
    };
    let ending = match noun::ending(nominative, gender, Animacy::Inanimate, cell.case, cell.number) {
        Some(ending) => ending,
        None => return false,
    };
    if ending.unicode_len() != 0 {
        return false;
    }
    same(parted(stem.as_str(), false).as_str(), written) || same(
        parted(stem.as_str(), true).as_str(),
        written,
    )
}

/// The cells of a noun's paradigm a written form reads into: the form the
/// noun writes there, `ё` and `е` taken as one, or its bare genitive plural
/// with the fleeting vowel put in.
pub fn cells(written: &str, nominative: &str, gender: Gender, animacy: Animacy) -> (res: Vec<Cell>)
    ensures
        res@ == noun_order().filter(reads_into(nominative@, gender, animacy, written@)),
{
    let ghost pred = reads_into(nominative@, gender, animacy, written@);
    let mut found: Vec<Cell> = Vec::new();
    let mut i: usize = 0;
    while i < 12
        invariant
            i <= 12,
            pred == reads_into(nominative@, gender, animacy, written@),
            found@ == noun_order().take(i as int).filter(pred),
        decreases 12 - i,
    {
        let cell = cell_at(i);
        proof {
            reveal(Seq::filter);
            assert(noun_order().take(i as int + 1).drop_last() =~= noun_order().take(i as int));
            assert(noun_order().take(i as int + 1).last() == cell);
        }
        let reads = match noun::written(nominative, gender, animacy, cell.case, cell.number) {
            Some(held) => same(held.as_str(), written) || parts(nominative, gender, cell, written),
            None => false,
        };
        if reads {
            found.push(cell);
        }
        i = i + 1;
    }
    assert(noun_order().take(12) =~= noun_order());
    found
}


/// Every cell a noun is written in is read back from the form written
/// there.
pub proof fn noun_cells_read_back(nominative: Seq<char>, gender: Gender, animacy: Animacy, i: int)
    requires
        0 <= i < 12,
        written_of(nominative, gender, animacy, noun_cell(i).case, noun_cell(i).number) is Some,
    ensures
        noun_order().filter(
            reads_into(
                nominative,
                gender,
                animacy,
                written_of(nominative, gender, animacy, noun_cell(i).case, noun_cell(i).number).unwrap(),
            ),
        ).contains(noun_cell(i)),
{
    let form = written_of(nominative, gender, animacy, noun_cell(i).case, noun_cell(i).number).unwrap();
    let pred = reads_into(nominative, gender, animacy, form);
    assert(noun_order()[i] == noun_cell(i));
    assert(pred(noun_cell(i)));
    noun_order().lemma_filter_contains(pred, i);
}

/// A noun form reads the same with its `ё` written `е`, or written either
/// way: the reading goes by the folded spelling alone.
pub proof fn a_noun_reads_the_same_with_e_for_yo(
    nominative: Seq<char>,
    gender: Gender,
    animacy: Animacy,
    written: Seq<char>,
    other: Seq<char>,
)
    ensures
        folded(written) == folded(other) ==> noun_order().filter(
            reads_into(nominative, gender, animacy, written),
        ) == noun_order().filter(reads_into(nominative, gender, animacy, other)),
        noun_order().filter(reads_into(nominative, gender, animacy, written)) == noun_order().filter(
            reads_into(nominative, gender, animacy, folded(written)),
        ),
{
    folding_is_settled(written);
    assert(reads_into(nominative, gender, animacy, written) =~= reads_into(
        nominative,
        gender,
        animacy,
        folded(written),
    ));
    if folded(written) == folded(other) {
        assert(reads_into(nominative, gender, animacy, written) =~= reads_into(
            nominative,
            gender,
            animacy,
            other,
        ));
    }
}

/// A bare genitive plural with its fleeting vowel put in, under either
/// stress, reads back into the genitive plural: `сосен` from `сосна`,
/// `окон` from `окно`.
pub proof fn a_parted_genitive_plural_reads_back(
    nominative: Seq<char>,
    gender: Gender,
    animacy: Animacy,
    stressed: bool,
)
    requires
        noun_stem_of(nominative, gender, Animacy::Inanimate, Case::Genitive, Number::Plural) is Some,
        noun::ending_of(nominative, gender, Animacy::Inanimate, Case::Genitive, Number::Plural) matches Some(
            ending,
        ) && ending@.len() == 0,
    ensures
        noun_order().filter(
            reads_into(
                nominative,
                gender,
                animacy,
                parted_of(
                    noun_stem_of(nominative, gender, Animacy::Inanimate, Case::Genitive, Number::Plural).unwrap(),
                    stressed,
                ),
            ),
        ).contains(Cell { case: Case::Genitive, number: Number::Plural }),
{
    let stem = noun_stem_of(nominative, gender, Animacy::Inanimate, Case::Genitive, Number::Plural).unwrap();
    let pred = reads_into(nominative, gender, animacy, parted_of(stem, stressed));
    assert(Case::STATED@[1] == Case::Genitive);
    assert(noun_order()[7] == Cell { case: Case::Genitive, number: Number::Plural });
    assert(noun_stem_of(nominative, gender, animacy, Case::Genitive, Number::Plural) == Some(stem));
    assert(parts_into(nominative, gender, noun_order()[7], parted_of(stem, stressed)));
    assert(pred(noun_order()[7]));
    noun_order().lemma_filter_contains(pred, 7);
}

} // verus!
