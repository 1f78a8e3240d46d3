//! Reads a written adjective form back into the cells of its paradigm: the
//! three genders of the singular and the plural, each in the six cases.

use vstd::prelude::*;

use super::adjective::{ending_stressed, parted, parted_of};
use super::attributive::{self, table_of};
use super::spelling::{fitted, fitted_of};
use crate::grammar::case::Case;
use crate::grammar::gender::{Animacy, Gender};
use crate::grammar::number::Number;
use crate::text::{eq_str, ends_with};

verus! {

/// One cell of an agreeing word's paradigm.
#[derive(Debug, Clone, Copy, PartialEq, Eq, Structural)]
pub struct Cell {
    /// The case.
    pub case: Case,
    /// The number.
    pub number: Number,
    /// The gender of a singular cell.
    pub gender: Option<Gender>,
}

/// The cell at a position of the reading order: the masculine, the feminine
/// and the neuter singular, then the plural, each by the six cases.
pub open spec fn agreed_cell(i: int) -> Cell {
    if i < 18 {
        Cell {
            case: Case::STATED@[i % 6],
            number: Number::Singular,
            gender: Some(Gender::STATED@[i / 6]),
        }
    } else {
        Cell { case: Case::STATED@[i % 6], number: Number::Plural, gender: None }
    }
}

/// Every cell of the paradigm, in reading order.
pub open spec fn agreed_order() -> Seq<Cell> {
    Seq::new(24, |i: int| agreed_cell(i))
}

/// Whether an adjective written in a cell is the form read.
pub open spec fn agrees_into(
    base: Seq<char>,
    shape: crate::grammar::stem::Stem,
    stressed: bool,
    animacy: Animacy,
    written: Seq<char>,
) -> spec_fn(Cell) -> bool {
    |cell: Cell|
        {
            let gender = match cell.gender {
                Some(gender) => gender,
                None => Gender::Masculine,
            };
            let ending = table_of(shape, gender, cell.number, stressed).of(cell.case, animacy);
            written == base + fitted_of(base, ending@, stressed)
        }
}

/// The cells a written form reads into.
pub open spec fn cells_of(written: Seq<char>, dictionary: Seq<char>, animacy: Animacy) -> Seq<Cell> {
    match parted_of(dictionary) {
        None => Seq::empty(),
        Some((base, shape)) => agreed_order().filter(
            agrees_into(base, shape, ends_with(dictionary, "ой"@), animacy, written),
        ),
    }
}

/// The cell at a position of the reading order.
fn cell_at(i: usize) -> (res: Cell)
    requires
        i < 24,
    ensures
        res == agreed_cell(i as int),
{
    if i < 18 {
        Cell { case: Case::STATED[i % 6], number: Number::Singular, gender: Some(Gender::STATED[i / 6]) }
    } else {
        Cell { case: Case::STATED[i % 6], number: Number::Plural, gender: None }
    }
}

/// The cells of an adjective's paradigm a written form reads into, given its
/// dictionary form and the animacy the accusative needs.
pub fn cells(written: &str, dictionary: &str, animacy: Animacy) -> (res: Vec<Cell>)
    ensures
        res@ == cells_of(written@, dictionary@, animacy),
{
    let (base, shape) = match parted(dictionary) {
        Some(held) => held,
        None => return Vec::new(),
    };
    let stressed = ending_stressed(dictionary);
    let ghost pred = agrees_into(base@, shape, stressed, animacy, written@);
    let mut found: Vec<Cell> = Vec::new();
    let mut i: usize = 0;
    while i < 24
        invariant
            i <= 24,
            pred == agrees_into(base@, shape, stressed, animacy, written@),
            found@ == agreed_order().take(i as int).filter(pred),
        decreases 24 - i,
    {
        let cell = cell_at(i);
        proof {
            reveal(Seq::filter);
            assert(agreed_order().take(i as int + 1).drop_last() =~= agreed_order().take(i as int));
            assert(agreed_order().take(i as int + 1).last() == cell);
        }
        let gender = match cell.gender {
            Some(gender) => gender,
            None => Gender::Masculine,
        };
        let table = attributive::table(shape, gender, cell.number, stressed);
        let ending = fitted(base.as_str(), table.of(cell.case, animacy), stressed);
        let mut whole = crate::text::owned(base.as_str());
        whole.append(ending.as_str());
        if eq_str(whole.as_str(), written) {
            found.push(cell);
        }
        i = i + 1;
    }
    assert(agreed_order().take(24) =~= agreed_order());
    found
}


/// Every cell an adjective is written in is read back from the form written
/// there.
pub proof fn agreed_cells_read_back(dictionary: Seq<char>, animacy: Animacy, i: int)
    requires
        parted_of(dictionary) is Some,
        0 <= i < 24,
    ensures
        ({
            let (base, shape) = parted_of(dictionary).unwrap();
            let stressed = ends_with(dictionary, "ой"@);
            let cell = agreed_cell(i);
            let gender = match cell.gender {
                Some(gender) => gender,
                None => Gender::Masculine,
            };
            let ending = table_of(shape, gender, cell.number, stressed).of(cell.case, animacy);
            cells_of(base + fitted_of(base, ending@, stressed), dictionary, animacy).contains(cell)
        }),
{
    let (base, shape) = parted_of(dictionary).unwrap();
    let stressed = ends_with(dictionary, "ой"@);
    let cell = agreed_cell(i);
    let gender = match cell.gender {
        Some(gender) => gender,
        None => Gender::Masculine,
    };
    let ending = table_of(shape, gender, cell.number, stressed).of(cell.case, animacy);
    let form = base + fitted_of(base, ending@, stressed);
    let pred = agrees_into(base, shape, stressed, animacy, form);
    assert(agreed_order()[i] == cell);
    assert(pred(cell));
    agreed_order().lemma_filter_contains(pred, i);
}

} // verus!
