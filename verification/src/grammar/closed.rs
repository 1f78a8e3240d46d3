//! The closed classes of Russian words: the ones a grammar lists rather than
//! derives.

pub mod numeral;
pub mod preposition;
