//! Reads a written verb form back into the cells of its paradigm: the
//! present, the past and the imperative of the verb are written out, and
//! every cell whose form is the one written is kept.

use vstd::prelude::*;

use super::inflect::{self, written_of};
use crate::grammar::form::verb::VerbForm;
use crate::grammar::form::Bare;
use crate::grammar::gender::Gender;
use crate::grammar::number::Number;
use crate::grammar::tense::{Person, Tense};
use crate::text::{folded, folding_is_settled, same};

verus! {

/// One cell of a verb's finite paradigm.
#[derive(Debug, Clone, Copy, PartialEq, Eq, Structural)]
pub struct Cell {
    /// The present for the present and the imperative, the past for the past.
    pub tense: Tense,
    /// The person of a present cell.
    pub person: Option<Person>,
    /// The gender of a past singular cell.
    pub gender: Option<Gender>,
    /// The number.
    pub number: Number,
}

/// Every cell of the finite paradigm, in the order a reading lists them:
/// the present by number and person, the past by gender and then the plural,
/// the imperative by number.
pub open spec fn cell_order() -> Seq<Cell> {
    seq![
        Cell { tense: Tense::Present, person: Some(Person::First), gender: None, number: Number::Singular },
        Cell { tense: Tense::Present, person: Some(Person::Second), gender: None, number: Number::Singular },
        Cell { tense: Tense::Present, person: Some(Person::Third), gender: None, number: Number::Singular },
        Cell { tense: Tense::Present, person: Some(Person::First), gender: None, number: Number::Plural },
        Cell { tense: Tense::Present, person: Some(Person::Second), gender: None, number: Number::Plural },
        Cell { tense: Tense::Present, person: Some(Person::Third), gender: None, number: Number::Plural },
        Cell { tense: Tense::Past, person: None, gender: Some(Gender::Masculine), number: Number::Singular },
        Cell { tense: Tense::Past, person: None, gender: Some(Gender::Feminine), number: Number::Singular },
        Cell { tense: Tense::Past, person: None, gender: Some(Gender::Neuter), number: Number::Singular },
        Cell { tense: Tense::Past, person: None, gender: None, number: Number::Plural },
        Cell { tense: Tense::Present, person: None, gender: None, number: Number::Singular },
        Cell { tense: Tense::Present, person: None, gender: None, number: Number::Plural },
    ]
}

/// The verb form a cell names.
pub open spec fn cell_form(cell: Cell) -> VerbForm {
    if cell.tense is Past {
        match cell.gender {
            Some(gender) => VerbForm::Past(Bare::Singular(gender)),
            None => VerbForm::Past(Bare::Plural),
        }
    } else {
        match cell.person {
            Some(person) => VerbForm::Present { person, number: cell.number },
            None => VerbForm::Imperative(cell.number),
        }
    }
}

/// Whether a form written one way or the other, by the stress, is the one
/// read, `ё` and `е` taken as one.
pub open spec fn spells(held: Option<Seq<char>>, written: Seq<char>) -> bool {
    held matches Some(form) && folded(form) == folded(written)
}

/// Whether a cell of a verb's paradigm is written as the form read.
pub open spec fn reads_into(infinitive: Seq<char>, written: Seq<char>) -> spec_fn(Cell) -> bool {
    |cell: Cell|
        spells(written_of(infinitive, cell_form(cell), false), written) || spells(
            written_of(infinitive, cell_form(cell), true),
            written,
        )
}

/// Every cell of the finite paradigm, in reading order.
pub fn every_cell() -> (res: Vec<Cell>)
    ensures
        res@ == cell_order(),
{
    let mut held = Vec::new();
    held.push(Cell { tense: Tense::Present, person: Some(Person::First), gender: None, number: Number::Singular });
    held.push(Cell { tense: Tense::Present, person: Some(Person::Second), gender: None, number: Number::Singular });
    held.push(Cell { tense: Tense::Present, person: Some(Person::Third), gender: None, number: Number::Singular });
    held.push(Cell { tense: Tense::Present, person: Some(Person::First), gender: None, number: Number::Plural });
    held.push(Cell { tense: Tense::Present, person: Some(Person::Second), gender: None, number: Number::Plural });
    held.push(Cell { tense: Tense::Present, person: Some(Person::Third), gender: None, number: Number::Plural });
    held.push(Cell { tense: Tense::Past, person: None, gender: Some(Gender::Masculine), number: Number::Singular });
    held.push(Cell { tense: Tense::Past, person: None, gender: Some(Gender::Feminine), number: Number::Singular });
    held.push(Cell { tense: Tense::Past, person: None, gender: Some(Gender::Neuter), number: Number::Singular });
    held.push(Cell { tense: Tense::Past, person: None, gender: None, number: Number::Plural });
    held.push(Cell { tense: Tense::Present, person: None, gender: None, number: Number::Singular });
    held.push(Cell { tense: Tense::Present, person: None, gender: None, number: Number::Plural });
    assert(held@ =~= cell_order());
    held
}

/// The verb form a cell names.
pub fn form_of_cell(cell: Cell) -> (res: VerbForm)
    ensures
        res == cell_form(cell),
{
    match cell.tense {
        Tense::Past => match cell.gender {
            Some(gender) => VerbForm::Past(Bare::Singular(gender)),
            None => VerbForm::Past(Bare::Plural),
        },
        _ => match cell.person {
            Some(person) => VerbForm::Present { person, number: cell.number },
            None => VerbForm::Imperative(cell.number),
        },
    }
}

/// Reports whether a written form is the one a verb writes in a cell, under
/// either stress.
fn writes(infinitive: &str, cell: Cell, written: &str) -> (res: bool)
    ensures
        res == (reads_into(infinitive@, written@))(cell),
{
    let form = form_of_cell(cell);
    let quiet = match inflect::written(infinitive, form, false) {
        Some(held) => same(held.as_str(), written),
        None => false,
    };
    if quiet {
        return true;
    }
    match inflect::written(infinitive, form, true) {
        Some(held) => same(held.as_str(), written),
        None => false,
    }
}

/// The cells of a verb's paradigm a written form reads into, `ё` and `е`
/// taken as one and either stress allowed.
pub fn cells(written: &str, infinitive: &str) -> (res: Vec<Cell>)
    ensures
        res@ == cell_order().filter(reads_into(infinitive@, written@)),
{
    let all = every_cell();
    let mut found: Vec<Cell> = Vec::new();
    let mut i: usize = 0;
    while i < all.len()
        invariant
            all@ == cell_order(),
            i <= all@.len(),
            found@ == cell_order().take(i as int).filter(reads_into(infinitive@, written@)),
        decreases all@.len() - i,
    {
        let cell = all[i];
        proof {
            reveal(Seq::filter);
            assert(cell_order().take(i as int + 1).drop_last() =~= cell_order().take(i as int));
        }
        if writes(infinitive, cell, written) {
            found.push(cell);
        }
        i = i + 1;
    }
    assert(cell_order().take(all@.len() as int) =~= cell_order());
    found
}


/// Every cell a verb writes is read back from the form it writes: what is
/// written from a cell reads into that cell.
pub proof fn written_cells_read_back(infinitive: Seq<char>, i: int, stressed: bool)
    requires
        0 <= i < 12,
        written_of(infinitive, cell_form(cell_order()[i]), stressed) is Some,
    ensures
        cell_order().filter(
            reads_into(infinitive, written_of(infinitive, cell_form(cell_order()[i]), stressed).unwrap()),
        ).contains(cell_order()[i]),
{
    let form = written_of(infinitive, cell_form(cell_order()[i]), stressed).unwrap();
    let pred = reads_into(infinitive, form);
    assert(pred(cell_order()[i]));
    cell_order().lemma_filter_contains(pred, i);
}

/// A verb form reads the same with its `ё` written `е`, or written either
/// way: `несешь` is read as `несёшь` is.
pub proof fn a_verb_reads_the_same_with_e_for_yo(infinitive: Seq<char>, written: Seq<char>, other: Seq<char>)
    ensures
        folded(written) == folded(other) ==> cell_order().filter(reads_into(infinitive, written))
            == cell_order().filter(reads_into(infinitive, other)),
        cell_order().filter(reads_into(infinitive, written)) == cell_order().filter(
            reads_into(infinitive, folded(written)),
        ),
{
    folding_is_settled(written);
    assert(reads_into(infinitive, written) =~= reads_into(infinitive, folded(written)));
    if folded(written) == folded(other) {
        assert(reads_into(infinitive, written) =~= reads_into(infinitive, other));
    }
}

} // verus!
