//! The morphemes of Russian words and the sound changes at their joints.

pub mod alternation;
