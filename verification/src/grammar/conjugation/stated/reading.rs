//! Reads a written verb form back into the cells its index states.

use vstd::prelude::*;

use super::stated_form;
use crate::grammar::conjugation::index::VerbIndex;
use crate::grammar::conjugation::reading::{cell_form, cell_order, every_cell, form_of_cell, spells, Cell};
use crate::text::{folded, folding_is_settled, same};

verus! {

/// Whether a cell, as a verb's index states it, is written as the form read.
pub open spec fn stated_reads_into(infinitive: Seq<char>, index: VerbIndex, written: Seq<char>) -> spec_fn(
    Cell,
) -> bool {
    |cell: Cell| spells(stated_form(infinitive, index, cell_form(cell), false), written)
}

/// Reports whether the index writes a cell as the form read.
fn writes(infinitive: &str, index: VerbIndex, cell: Cell, written: &str) -> (res: bool)
    ensures
        res == (stated_reads_into(infinitive@, index, written@))(cell),
{
    match super::written(infinitive, index, form_of_cell(cell), false) {
        Some(held) => same(held.as_str(), written),
        None => false,
    }
}

/// The cells a written form reads into, as the verb's index states its
/// paradigm; `ё` and `е` are taken as one.
pub fn cells(written: &str, infinitive: &str, index: VerbIndex) -> (res: Vec<Cell>)
    ensures
        res@ == cell_order().filter(stated_reads_into(infinitive@, index, written@)),
{
    let all = every_cell();
    let mut found: Vec<Cell> = Vec::new();
    let mut i: usize = 0;
    while i < all.len()
        invariant
            all@ == cell_order(),
            i <= all@.len(),
            found@ == cell_order().take(i as int).filter(stated_reads_into(infinitive@, index, written@)),
        decreases all@.len() - i,
    {
        let cell = all[i];
        proof {
            reveal(Seq::filter);
            assert(cell_order().take(i as int + 1).drop_last() =~= cell_order().take(i as int));
        }
        if writes(infinitive, index, cell, written) {
            found.push(cell);
        }
        i = i + 1;
    }
    assert(cell_order().take(all@.len() as int) =~= cell_order());
    found
}


/// Every cell an index writes is read back from the form it writes.
pub proof fn stated_cells_read_back(infinitive: Seq<char>, index: VerbIndex, i: int)
    requires
        0 <= i < 12,
        stated_form(infinitive, index, cell_form(cell_order()[i]), false) is Some,
    ensures
        cell_order().filter(
            stated_reads_into(
                infinitive,
                index,
                stated_form(infinitive, index, cell_form(cell_order()[i]), false).unwrap(),
            ),
        ).contains(cell_order()[i]),
{
    let form = stated_form(infinitive, index, cell_form(cell_order()[i]), false).unwrap();
    let pred = stated_reads_into(infinitive, index, form);
    assert(pred(cell_order()[i]));
    cell_order().lemma_filter_contains(pred, i);
}

/// A stated verb form reads the same with its `ё` written `е`, or written
/// either way.
pub proof fn a_stated_verb_reads_the_same_with_e_for_yo(
    infinitive: Seq<char>,
    index: VerbIndex,
    written: Seq<char>,
    other: Seq<char>,
)
    ensures
        folded(written) == folded(other) ==> cell_order().filter(
            stated_reads_into(infinitive, index, written),
        ) == cell_order().filter(stated_reads_into(infinitive, index, other)),
        cell_order().filter(stated_reads_into(infinitive, index, written)) == cell_order().filter(
            stated_reads_into(infinitive, index, folded(written)),
        ),
{
    folding_is_settled(written);
    assert(stated_reads_into(infinitive, index, written) =~= stated_reads_into(
        infinitive,
        index,
        folded(written),
    ));
    if folded(written) == folded(other) {
        assert(stated_reads_into(infinitive, index, written) =~= stated_reads_into(
            infinitive,
            index,
            other,
        ));
    }
}

} // verus!
