//! The circled numerals of a declension index, each one cell declined by the
//! other pattern.

use vstd::prelude::*;

verus! {

/// How far a circled numeral reaches into its cell.
#[derive(Debug, Clone, Copy, PartialEq, Eq, Hash, Structural)]
pub enum Reach {
    /// `(N)`: the cell is the other pattern's and nothing else.
    Whole,
    /// `((N))`: both forms live, the pattern's own and the other's.
    Either,
}

/// The circled numerals a declension index carries.
#[derive(Debug, Clone, Copy, PartialEq, Eq, Hash, Default, Structural)]
pub struct Circled {
    /// ①: the nominative plural by the other pattern.
    pub nominative: Option<Reach>,
    /// ②: the genitive plural by the other pattern.
    pub genitive: Option<Reach>,
    /// ③: the prepositional singular written `-е` against the `-и` of the
    /// stems the index writes `7`.
    pub prepositional: Option<Reach>,
}

impl Circled {
    /// A record with no numerals.
    pub open spec fn empty() -> Circled {
        Circled { nominative: None, genitive: None, prepositional: None }
    }

    /// The record with the cell a numeral names set to a reach: `1` the
    /// nominative plural, `2` the genitive plural, `3` the prepositional
    /// singular.
    pub open spec fn marked(self, digit: char, reach: Reach) -> Circled {
        if digit == '1' {
            Circled { nominative: Some(reach), ..self }
        } else if digit == '2' {
            Circled { genitive: Some(reach), ..self }
        } else if digit == '3' {
            Circled { prepositional: Some(reach), ..self }
        } else {
            self
        }
    }

    /// A record with no numerals, which is what most indexes carry.
    pub fn none() -> (res: Circled)
        ensures
            res == Circled::empty(),
    {
        Circled { nominative: None, genitive: None, prepositional: None }
    }
}

} // verus!
