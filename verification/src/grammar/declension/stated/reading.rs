//! Reads a written noun form back into the cells its index states.

use vstd::prelude::*;

use super::written_of;
use crate::grammar::declension::index::Index;
use crate::grammar::declension::reading::{cell_at, noun_order, Cell};
use crate::grammar::gender::{Animacy, Gender};
use crate::text::{folded, folding_is_settled, same};

verus! {

/// Whether a stated noun writes a cell as the form read.
pub open spec fn stated_reads_into(
    lemma: Seq<char>,
    gender: Gender,
    animacy: Animacy,
    index: Index,
    written: Seq<char>,
) -> spec_fn(Cell) -> bool {
    |cell: Cell|
        written_of(lemma, gender, animacy, index, cell.case, cell.number) matches Some(held) && folded(
            held,
        ) == folded(written)
}

/// The cells of a stated noun's paradigm a written form reads into, `ё` and
/// `е` taken as one: `конем` from `конь 2b` is the instrumental singular.
pub fn cells(written: &str, lemma: &str, gender: Gender, animacy: Animacy, index: Index) -> (res: Vec<Cell>)
    ensures
        res@ == noun_order().filter(stated_reads_into(lemma@, gender, animacy, index, written@)),
{
    let ghost pred = stated_reads_into(lemma@, gender, animacy, index, written@);
    let mut found: Vec<Cell> = Vec::new();
    let mut i: usize = 0;
    while i < 12
        invariant
            i <= 12,
            pred == stated_reads_into(lemma@, gender, animacy, index, written@),
            found@ == noun_order().take(i as int).filter(pred),
        decreases 12 - i,
    {
        let cell = cell_at(i);
        proof {
            reveal(Seq::filter);
            assert(noun_order().take(i as int + 1).drop_last() =~= noun_order().take(i as int));
            assert(noun_order().take(i as int + 1).last() == cell);
        }
        let reads = match super::written(lemma, gender, animacy, index, cell.case, cell.number) {
            Some(held) => same(held.as_str(), written),
            None => false,
        };
        if reads {
            found.push(cell);
        }
        i = i + 1;
    }
    assert(noun_order().take(12) =~= noun_order());
    found
}


/// Every cell an index writes a noun in is read back from the form written
/// there.
pub proof fn stated_cells_read_back(lemma: Seq<char>, gender: Gender, animacy: Animacy, index: Index, i: int)
    requires
        0 <= i < 12,
        written_of(lemma, gender, animacy, index, crate::grammar::declension::reading::noun_cell(i).case,
            crate::grammar::declension::reading::noun_cell(i).number) is Some,
    ensures
        ({
            let cell = crate::grammar::declension::reading::noun_cell(i);
            let form = written_of(lemma, gender, animacy, index, cell.case, cell.number).unwrap();
            noun_order().filter(stated_reads_into(lemma, gender, animacy, index, form)).contains(cell)
        }),
{
    let cell = crate::grammar::declension::reading::noun_cell(i);
    let form = written_of(lemma, gender, animacy, index, cell.case, cell.number).unwrap();
    let pred = stated_reads_into(lemma, gender, animacy, index, form);
    assert(noun_order()[i] == cell);
    assert(pred(cell));
    noun_order().lemma_filter_contains(pred, i);
}

/// A stated noun form reads the same with its `ё` written `е`, or written
/// either way.
pub proof fn a_stated_noun_reads_the_same_with_e_for_yo(
    lemma: Seq<char>,
    gender: Gender,
    animacy: Animacy,
    index: Index,
    written: Seq<char>,
    other: Seq<char>,
)
    ensures
        folded(written) == folded(other) ==> noun_order().filter(
            stated_reads_into(lemma, gender, animacy, index, written),
        ) == noun_order().filter(stated_reads_into(lemma, gender, animacy, index, other)),
        noun_order().filter(stated_reads_into(lemma, gender, animacy, index, written))
            == noun_order().filter(stated_reads_into(lemma, gender, animacy, index, folded(written))),
{
    folding_is_settled(written);
    assert(stated_reads_into(lemma, gender, animacy, index, written) =~= stated_reads_into(
        lemma,
        gender,
        animacy,
        index,
        folded(written),
    ));
    if folded(written) == folded(other) {
        assert(stated_reads_into(lemma, gender, animacy, index, written) =~= stated_reads_into(
            lemma,
            gender,
            animacy,
            index,
            other,
        ));
    }
}

} // verus!
