//! The spelling rules of the 1956 code that the paradigms lean on.

pub mod svod;
