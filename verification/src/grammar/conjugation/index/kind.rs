//! The sixteen classes of Zaliznyak's verb index, and the isolated verbs
//! outside them.

use vstd::prelude::*;

verus! {

/// A verb's class in the dictionary's numbering.
#[derive(Debug, Clone, Copy, PartialEq, Eq, Hash, Structural)]
pub enum Kind {
    /// 1: `-ать` with the glide kept — `читать, читаю`.
    One,
    /// 2: `-овать`, `-евать` trading the suffix for `-у-`, `-ю-` —
    /// `рисовать, рисую`.
    Two,
    /// 3: `-нуть` — `толкнуть, толкну`; the `3°` subtype drops `-ну-` in the
    /// past — `сохнуть, сох`.
    Three,
    /// 4: `-ить` of the second conjugation — `говорить, говорю`.
    Four,
    /// 5: `-ать`, `-ять`, `-еть` of the second conjugation — `слышать, слышу`.
    Five,
    /// 6: `-ать`, `-ять` with the stem swapped throughout the present —
    /// `писать, пишу`; the `6°` subtype swaps nothing — `звать, зову`.
    Six,
    /// 7: `-зти`, `-зть`, `-сти`, `-сть` on a consonant stem — `везти, везу`.
    Seven,
    /// 8: `-чь` on a velar stem — `печь, пеку`.
    Eight,
    /// 9: `-ереть` cut to a bare `р` — `тереть, тру`.
    Nine,
    /// 10: `-ороть`, `-олоть` cut to the liquid — `колоть, колю`.
    Ten,
    /// 11: a monosyllabic `-ить` conjugating on `-ью` — `бить, бью`.
    Eleven,
    /// 12: `-ыть`, `-уть`, `-ить` trading the vowel before a glide —
    /// `мыть, мою`.
    Twelve,
    /// 13: `-авать` losing `-ва-` in the present — `давать, даю`.
    Thirteen,
    /// 14: `-ать`, `-ять` on a hidden nasal stem — `жать, жму`.
    Fourteen,
    /// 15: `-ть` taking `н` — `стать, стану`.
    Fifteen,
    /// 16: `-ть` taking `в` — `жить, живу`.
    Sixteen,
    /// `^`: a verb outside the sixteen, whose forms the dictionary prints —
    /// `дать`, `есть`, `идти`, `быть`.
    Isolated,
}

impl Kind {
    /// The class a digit names, or nothing for a digit the dictionary does
    /// not use.
    #[verifier::allow_in_spec]
    pub fn of(digit: u8) -> Option<Kind>
        returns
            match digit {
                1 => Some(Kind::One),
                2 => Some(Kind::Two),
                3 => Some(Kind::Three),
                4 => Some(Kind::Four),
                5 => Some(Kind::Five),
                6 => Some(Kind::Six),
                7 => Some(Kind::Seven),
                8 => Some(Kind::Eight),
                9 => Some(Kind::Nine),
                10 => Some(Kind::Ten),
                11 => Some(Kind::Eleven),
                12 => Some(Kind::Twelve),
                13 => Some(Kind::Thirteen),
                14 => Some(Kind::Fourteen),
                15 => Some(Kind::Fifteen),
                16 => Some(Kind::Sixteen),
                _ => None,
            },
    {
        match digit {
            1 => Some(Kind::One),
            2 => Some(Kind::Two),
            3 => Some(Kind::Three),
            4 => Some(Kind::Four),
            5 => Some(Kind::Five),
            6 => Some(Kind::Six),
            7 => Some(Kind::Seven),
            8 => Some(Kind::Eight),
            9 => Some(Kind::Nine),
            10 => Some(Kind::Ten),
            11 => Some(Kind::Eleven),
            12 => Some(Kind::Twelve),
            13 => Some(Kind::Thirteen),
            14 => Some(Kind::Fourteen),
            15 => Some(Kind::Fifteen),
            16 => Some(Kind::Sixteen),
            _ => None,
        }
    }

    /// The digit the class is written with, absent for an isolated verb,
    /// which the dictionary marks `^` instead of numbering.
    #[verifier::allow_in_spec]
    pub fn digit(self) -> Option<u8>
        returns
            match self {
                Kind::One => Some(1u8),
                Kind::Two => Some(2u8),
                Kind::Three => Some(3u8),
                Kind::Four => Some(4u8),
                Kind::Five => Some(5u8),
                Kind::Six => Some(6u8),
                Kind::Seven => Some(7u8),
                Kind::Eight => Some(8u8),
                Kind::Nine => Some(9u8),
                Kind::Ten => Some(10u8),
                Kind::Eleven => Some(11u8),
                Kind::Twelve => Some(12u8),
                Kind::Thirteen => Some(13u8),
                Kind::Fourteen => Some(14u8),
                Kind::Fifteen => Some(15u8),
                Kind::Sixteen => Some(16u8),
                Kind::Isolated => None,
            },
    {
        match self {
            Kind::One => Some(1),
            Kind::Two => Some(2),
            Kind::Three => Some(3),
            Kind::Four => Some(4),
            Kind::Five => Some(5),
            Kind::Six => Some(6),
            Kind::Seven => Some(7),
            Kind::Eight => Some(8),
            Kind::Nine => Some(9),
            Kind::Ten => Some(10),
            Kind::Eleven => Some(11),
            Kind::Twelve => Some(12),
            Kind::Thirteen => Some(13),
            Kind::Fourteen => Some(14),
            Kind::Fifteen => Some(15),
            Kind::Sixteen => Some(16),
            Kind::Isolated => None,
        }
    }
}

/// Every digit the dictionary numbers a class with reads back to itself
/// through the class it names, and every numbered class writes a digit that
/// names it again.
pub proof fn digit_reads_back(digit: u8, kind: Kind)
    ensures
        1 <= digit <= 16 ==> (Kind::of(digit) matches Some(held) && held.digit() == Some(digit)),
        kind.digit() matches Some(written) ==> Kind::of(written) == Some(kind),
        Kind::of(digit) is None <==> (digit == 0 || digit > 16),
{
}

} // verus!
