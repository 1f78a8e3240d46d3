//! A verified core of Russian grammar: the categories a word form states, the
//! dictionary indexes of nouns and verbs, and the paradigms that write a word
//! out from its dictionary form and read a written form back into its cells.

pub mod alphabet;
pub mod grammar;
pub mod id;
pub mod morphemics;
pub mod rules;
pub mod text;
