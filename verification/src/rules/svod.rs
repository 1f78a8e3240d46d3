//! The rules of the code of 1956, by the letter they govern.

pub mod soft_sign;
