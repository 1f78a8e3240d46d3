//! The dictionary index of a declinable word: what its stem ends in, where
//! its stress falls, and the marks that state its departures.

pub mod circled;
pub mod falls;
pub mod marks;

use vstd::prelude::*;

use self::marks::{blank, tail_from};
use crate::grammar::conjugation::index::scheme::{primes_count, primes_end};
use crate::grammar::conjugation::index::is_digit;

verus! {

/// What the stem of a declinable word ends in, by the digit the dictionary
/// writes it with.
#[derive(Debug, Clone, Copy, PartialEq, Eq, Hash, Structural)]
pub enum Kind {
    /// 1, a hard consonant: `топор`, `стол`.
    Hard,
    /// 2, a soft consonant: `тюлень`.
    Soft,
    /// 3, one of `г`, `к`, `х`: `сапог`.
    Velar,
    /// 4, one of `ж`, `ш`, `ч`, `щ`: `калач`.
    Sibilant,
    /// 5, `ц`: `немец`.
    Tse,
    /// 6, a vowel or the glide: `бой`.
    Glide,
    /// 7, the glide written `и`: `полоний`, `армия`.
    Iotated,
    /// 8, the third declension: `боль`, `ночь`.
    Third,
}

impl Kind {
    /// The digit this kind is written with.
    #[verifier::allow_in_spec]
    pub fn digit(self) -> u8
        returns
            match self {
                Kind::Hard => 1u8,
                Kind::Soft => 2u8,
                Kind::Velar => 3u8,
                Kind::Sibilant => 4u8,
                Kind::Tse => 5u8,
                Kind::Glide => 6u8,
                Kind::Iotated => 7u8,
                Kind::Third => 8u8,
            },
    {
        match self {
            Kind::Hard => 1,
            Kind::Soft => 2,
            Kind::Velar => 3,
            Kind::Sibilant => 4,
            Kind::Tse => 5,
            Kind::Glide => 6,
            Kind::Iotated => 7,
            Kind::Third => 8,
        }
    }

    /// The kind a digit names.
    #[verifier::allow_in_spec]
    pub fn of(digit: u8) -> Option<Kind>
        returns
            match digit {
                1 => Some(Kind::Hard),
                2 => Some(Kind::Soft),
                3 => Some(Kind::Velar),
                4 => Some(Kind::Sibilant),
                5 => Some(Kind::Tse),
                6 => Some(Kind::Glide),
                7 => Some(Kind::Iotated),
                8 => Some(Kind::Third),
                _ => None,
            },
    {
        match digit {
            1 => Some(Kind::Hard),
            2 => Some(Kind::Soft),
            3 => Some(Kind::Velar),
            4 => Some(Kind::Sibilant),
            5 => Some(Kind::Tse),
            6 => Some(Kind::Glide),
            7 => Some(Kind::Iotated),
            8 => Some(Kind::Third),
            _ => None,
        }
    }
}

/// The kind a digit names is the kind that writes that digit, for every
/// kind.
pub proof fn kind_digit_reads_back(kind: Kind, digit: u8)
    ensures
        Kind::of(kind.digit()) == Some(kind),
        Kind::of(digit) matches Some(held) ==> held.digit() == digit,
{
}

/// Where the stress of a declinable word falls.
#[derive(Debug, Clone, Copy, PartialEq, Eq, Hash, Structural)]
pub enum Accent {
    /// a: on the stem throughout.
    A,
    /// b: on the ending throughout.
    B,
    /// b′: on the ending, but on the stem in the instrumental singular.
    BPrime,
    /// c: on the stem in the singular, on the ending in the plural.
    C,
    /// d: on the ending in the singular, on the stem in the plural.
    D,
    /// d′: as d, but on the stem in the accusative singular.
    DPrime,
    /// e: on the stem in the singular and the nominative plural, on the ending
    /// in the rest of the plural.
    E,
    /// f: on the ending, but on the stem in the nominative singular.
    F,
    /// f′: on the ending, but on the stem in the accusative singular.
    FPrime,
    /// f″: on the ending, but on the stem in the instrumental singular and the
    /// nominative plural.
    FDouble,
}

/// A declinable word's dictionary index, read.
#[derive(Debug, Clone, Copy, PartialEq, Eq, Hash, Structural)]
pub struct Index {
    /// What the stem ends in.
    pub kind: Kind,
    /// Where the stress falls.
    pub accent: Accent,
    /// Whether the stem parts with a fleeting vowel, written `*`.
    pub fleeting: bool,
    /// The circled numerals, each one cell by the other pattern.
    pub circled: circled::Circled,
    /// Whether the stem trades `е` for `ё` with the stress, written `, ё`.
    pub yo: bool,
    /// Whether the index carries marks the core has no rules for.
    pub noted: bool,
}

/// The accent a letter and a count of primes name.
pub open spec fn accent_named(letter: char, primes: nat) -> Option<Accent> {
    if letter == 'a' && primes == 0 {
        Some(Accent::A)
    } else if letter == 'b' {
        Some(if primes == 0 { Accent::B } else { Accent::BPrime })
    } else if letter == 'c' && primes == 0 {
        Some(Accent::C)
    } else if letter == 'd' {
        Some(if primes == 0 { Accent::D } else { Accent::DPrime })
    } else if letter == 'e' && primes == 0 {
        Some(Accent::E)
    } else if letter == 'f' {
        Some(
            if primes == 0 {
                Accent::F
            } else if primes == 1 {
                Accent::FPrime
            } else {
                Accent::FDouble
            },
        )
    } else {
        None
    }
}

/// The accent written at a position, with the position after its primes.
pub open spec fn accent_at(s: Seq<char>, at: int) -> Option<(Accent, int)> {
    if 0 <= at < s.len() {
        match accent_named(s[at], primes_count(s, at + 1)) {
            Some(held) => Some((held, primes_end(s, at + 1))),
            None => None,
        }
    } else {
        None
    }
}

/// Whether a letter opens the stress of an index.
pub open spec fn is_accent_letter(c: char) -> bool {
    'a' <= c <= 'f'
}

/// What stands between the digit and the stress letter: the star, and
/// whatever else is noted. Returns the star, the note, and where the letter
/// stands.
pub open spec fn between(s: Seq<char>, at: int, fleeting: bool, noted: bool) -> (bool, bool, int)
    decreases s.len() - at,
{
    if 0 <= at < s.len() && !is_accent_letter(s[at]) {
        if s[at] == '*' {
            between(s, at + 1, true, noted)
        } else {
            between(s, at + 1, fleeting, true)
        }
    } else {
        (fleeting, noted, at)
    }
}

/// The index a written one states.
pub open spec fn index_of(s: Seq<char>) -> Option<Index> {
    if s.len() == 0 || !is_digit(s[0]) {
        None
    } else {
        match Kind::of(((s[0] as int) - ('0' as int)) as u8) {
            None => None,
            Some(kind) => {
                let (fleeting, noted, p) = between(s, 1, false, false);
                match accent_at(s, p) {
                    None => None,
                    Some((accent, q)) => {
                        let tail = tail_from(s, q, blank());
                        Some(
                            Index {
                                kind,
                                accent,
                                fleeting,
                                circled: tail.circled,
                                yo: tail.yo,
                                noted: noted || tail.noted,
                            },
                        )
                    },
                }
            },
        }
    }
}

proof fn between_stays_in(s: Seq<char>, at: int, fleeting: bool, noted: bool)
    requires
        0 <= at <= s.len(),
    ensures
        at <= between(s, at, fleeting, noted).2 <= s.len(),
    decreases s.len() - at,
{
    if at < s.len() && !is_accent_letter(s[at]) {
        if s[at] == '*' {
            between_stays_in(s, at + 1, true, noted);
        } else {
            between_stays_in(s, at + 1, fleeting, true);
        }
    }
}

proof fn primes_stay_in(s: Seq<char>, at: int)
    requires
        0 <= at <= s.len(),
    ensures
        at <= primes_end(s, at) <= s.len(),
    decreases s.len() - at,
{
    if at < s.len() && crate::grammar::conjugation::index::scheme::prime_weight(s[at]) > 0 {
        primes_stay_in(s, at + 1);
    }
}

/// Reads a declension index as the dictionary writes it: `1a`, `3*d`,
/// `4b, ё`, `1c(1)(2)`. An index without a digit that names a kind, or
/// without a stress letter, is refused.
pub fn read(written: &str) -> (res: Option<Index>)
    ensures
        res == index_of(written@),
{
    let n = written.unicode_len();
    if n == 0 {
        return None;
    }
    let first = written.get_char(0);
    if !('0' <= first && first <= '9') {
        return None;
    }
    let kind = match Kind::of((first as u32 - '0' as u32) as u8) {
        Some(kind) => kind,
        None => return None,
    };
    let mut fleeting = false;
    let mut noted = false;
    let mut i: usize = 1;
    proof {
        between_stays_in(written@, 1, false, false);
    }
    while i < n
        invariant
            n == written@.len(),
            1 <= i <= n,
            between(written@, i as int, fleeting, noted) == between(written@, 1, false, false),
        ensures
            1 <= i <= n,
            between(written@, i as int, fleeting, noted) == between(written@, 1, false, false),
            between(written@, i as int, fleeting, noted) == (fleeting, noted, i as int),
        decreases n - i,
    {
        let held = written.get_char(i);
        if 'a' <= held && held <= 'f' {
            break;
        }
        if held == '*' {
            fleeting = true;
        } else {
            noted = true;
        }
        i = i + 1;
    }
    let (accent, q) = match accent(written, i) {
        Some(held) => held,
        None => return None,
    };
    let tail = marks::read(written, q);
    Some(
        Index {
            kind,
            accent,
            fleeting,
            circled: tail.circled,
            yo: tail.yo,
            noted: noted || tail.noted,
        },
    )
}

/// Reads the stress letter at a position and the primes after it.
fn accent(written: &str, at: usize) -> (res: Option<(Accent, usize)>)
    requires
        at <= written@.len(),
    ensures
        match res {
            Some((held, next)) => accent_at(written@, at as int) == Some((held, next as int)),
            None => accent_at(written@, at as int) is None,
        },
        res matches Some((_, next)) ==> at < next <= written@.len(),
{
    let n = written.unicode_len();
    if at >= n {
        return None;
    }
    let letter = written.get_char(at);
    let mut primes: usize = 0;
    let ghost mut counted: nat = 0;
    let mut i: usize = at + 1;
    loop
        invariant_except_break
            n == written@.len(),
            at < i <= n,
            primes_end(written@, at + 1) == primes_end(written@, i as int),
            primes_count(written@, at + 1) == counted + primes_count(written@, i as int),
            primes == (if counted > 3 { 3 } else { counted }),
        ensures
            n == written@.len(),
            at < i <= n,
            primes_end(written@, at + 1) == i,
            primes_count(written@, at + 1) == counted,
            primes == (if counted > 3 { 3 } else { counted }),
        decreases n - i,
    {
        if i >= n {
            break;
        }
        let held = written.get_char(i);
        let weight: usize = if held == '\'' || held == '′' {
            1
        } else if held == '"' {
            2
        } else {
            0
        };
        if weight == 0 {
            break;
        }
        proof {
            counted = (counted + weight) as nat;
        }
        primes = if primes + weight > 3 { 3 } else { primes + weight };
        i = i + 1;
    }
    proof {
        primes_stay_in(written@, at + 1);
    }
    let held = if letter == 'a' && primes == 0 {
        Accent::A
    } else if letter == 'b' {
        if primes == 0 { Accent::B } else { Accent::BPrime }
    } else if letter == 'c' && primes == 0 {
        Accent::C
    } else if letter == 'd' {
        if primes == 0 { Accent::D } else { Accent::DPrime }
    } else if letter == 'e' && primes == 0 {
        Accent::E
    } else if letter == 'f' {
        if primes == 0 {
            Accent::F
        } else if primes == 1 {
            Accent::FPrime
        } else {
            Accent::FDouble
        }
    } else {
        return None;
    };
    Some((held, i))
}

} // verus!
