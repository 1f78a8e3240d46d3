//! The numerals, listed by their dictionary forms.

use vstd::prelude::*;

verus! {

/// The cardinal numerals a dictionary lists on their own.
pub const CARDINAL: [&'static str; 39] = [
    "один", "два", "три", "четыре", "пять", "шесть", "семь", "восемь", "девять", "десять",
    "одиннадцать", "двенадцать", "тринадцать", "четырнадцать", "пятнадцать", "шестнадцать",
    "семнадцать", "восемнадцать", "девятнадцать", "двадцать", "тридцать", "сорок", "пятьдесят",
    "шестьдесят", "семьдесят", "восемьдесят", "девяносто", "сто", "двести", "триста", "четыреста",
    "пятьсот", "шестьсот", "семьсот", "восемьсот", "девятьсот", "тысяча", "миллион", "миллиард",
];

/// The collective numerals: `двое`, `трое`, and `оба`.
pub const COLLECTIVE: [&'static str; 11] = [
    "двое", "трое", "четверо", "пятеро", "шестеро", "семеро", "восьмеро", "девятеро", "десятеро",
    "оба", "обе",
];

/// The fractional numerals.
pub const FRACTIONAL: [&'static str; 3] = ["полтора", "полторы", "полтораста"];

} // verus!
