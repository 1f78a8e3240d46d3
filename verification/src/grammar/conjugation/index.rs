//! The dictionary index of a verb: its class, the signs beside it, the
//! stress schemes of the present and the past, and the marks after them.

pub mod circled;
pub mod kind;
pub mod marks;
pub mod scheme;

use vstd::prelude::*;

use self::circled::Circled;
use self::kind::Kind;
use self::marks::{blank, tail_from};
use self::scheme::{scheme_at, Scheme};
use crate::text::without_suffix;

verus! {

/// The signs written between a verb's class and its present scheme.
#[derive(Debug, Clone, Copy, PartialEq, Eq, Hash, Default, Structural)]
pub struct Signs {
    /// Whether the class carries the ring, written `°`: `3°` drops `-ну-` in
    /// the past, `6°` puts the endings on the bare stem with no swap.
    pub ringed: bool,
    /// Whether a vowel comes and goes between the stems, written `*`:
    /// `вбить` conjugates `вобью`.
    pub fleeting: bool,
}

/// A verb's dictionary index, read.
#[derive(Debug, Clone, Copy, PartialEq, Eq, Hash, Structural)]
pub struct VerbIndex {
    /// The class: how the present stem is got from the infinitive.
    pub kind: Kind,
    /// The `°` and `*` between the digit and the letter.
    pub signs: Signs,
    /// Where the stress falls in the present and the simple future.
    pub present: Scheme,
    /// Where the stress falls in the past; an index with no slash puts it in
    /// scheme `a`.
    pub past: Scheme,
    /// The circled numerals, each one cell's departure.
    pub circled: Circled,
    /// Whether the verb forms no passive participles, written `X`.
    pub passiveless: bool,
    /// Whether the stem trades `е` for `ё` under its own stress, written
    /// `, ё`.
    pub yo: bool,
    /// Whether the index carries marks the rules here do not read.
    pub noted: bool,
}

/// Whether a letter is an ASCII digit.
pub open spec fn is_digit(c: char) -> bool {
    '0' <= c <= '9'
}

/// Where the run of digits starting at a position ends.
pub open spec fn digits_end(s: Seq<char>, at: int) -> int
    decreases s.len() - at,
{
    if 0 <= at < s.len() && is_digit(s[at]) {
        digits_end(s, at + 1)
    } else {
        at
    }
}

/// The number the digits between two positions write.
pub open spec fn digits_value(s: Seq<char>, from: int, to: int) -> nat
    decreases to - from,
{
    if to <= from {
        0
    } else {
        digits_value(s, from, to - 1) * 10 + ((s[to - 1] as int) - ('0' as int)) as nat
    }
}

/// The class a written number names: a number past a byte is no class.
pub open spec fn kind_numbered(value: nat) -> Option<Kind> {
    if value <= 255 {
        Kind::of(value as u8)
    } else {
        None
    }
}

/// The class written at the head of an index, with the position after it.
pub open spec fn head_at(s: Seq<char>) -> Option<(Kind, int)> {
    if s.len() > 0 && s[0] == '^' {
        Some((Kind::Isolated, 1))
    } else if digits_end(s, 0) == 0 {
        None
    } else {
        match kind_numbered(digits_value(s, 0, digits_end(s, 0))) {
            Some(kind) => Some((kind, digits_end(s, 0))),
            None => None,
        }
    }
}

/// The signs read from a position, given those read before it.
pub open spec fn signs_from(s: Seq<char>, at: int, signs: Signs) -> (Signs, int)
    decreases s.len() - at,
{
    if 0 <= at < s.len() && s[at] == '°' {
        signs_from(s, at + 1, Signs { ringed: true, ..signs })
    } else if 0 <= at < s.len() && s[at] == '*' {
        signs_from(s, at + 1, Signs { fleeting: true, ..signs })
    } else {
        (signs, at)
    }
}

/// An index with the `/ru` a dump leaves after it taken off.
pub open spec fn unleaked(s: Seq<char>) -> Seq<char> {
    match without_suffix(s, "/ru"@) {
        Some(head) => head,
        None => s,
    }
}

/// The index a written one states.
pub open spec fn index_of(written: Seq<char>) -> Option<VerbIndex> {
    let s = unleaked(written);
    match head_at(s) {
        None => None,
        Some((kind, p)) => {
            let (signs, q) = signs_from(s, p, Signs { ringed: false, fleeting: false });
            match scheme_at(s, q) {
                None => None,
                Some((present, r)) => {
                    let tail = tail_from(s, r, blank());
                    Some(
                        VerbIndex {
                            kind,
                            signs,
                            present,
                            past: match tail.past {
                                Some(past) => past,
                                None => Scheme::A,
                            },
                            circled: tail.circled,
                            passiveless: tail.passiveless,
                            yo: tail.yo,
                            noted: tail.noted,
                        },
                    )
                },
            }
        },
    }
}

proof fn signs_stay_in(s: Seq<char>, at: int, signs: Signs)
    requires
        0 <= at <= s.len(),
    ensures
        at <= signs_from(s, at, signs).1 <= s.len(),
    decreases s.len() - at,
{
    if at < s.len() && s[at] == '°' {
        signs_stay_in(s, at + 1, Signs { ringed: true, ..signs });
    } else if at < s.len() && s[at] == '*' {
        signs_stay_in(s, at + 1, Signs { fleeting: true, ..signs });
    }
}

/// Reads a verb index as the dictionary writes it: `1a`, `6°b/c`,
/// `3°a((5))(6)`, `^b/c'`. An index the class cannot be read from, or whose
/// present scheme is missing, is refused.
pub fn read(written: &str) -> (res: Option<VerbIndex>)
    ensures
        res == index_of(written@),
{
    let bare = match crate::text::strip_suffix(written, "/ru") {
        Some(head) => head,
        None => written,
    };
    let ghost s = bare@;
    assert(s == unleaked(written@));
    let (kind, p) = match head(bare) {
        Some(held) => held,
        None => return None,
    };
    let (signs, q) = signs(bare, p);
    let (present, r) = match scheme::read(bare, q) {
        Some(held) => held,
        None => return None,
    };
    let tail = marks::read(bare, r);
    Some(
        VerbIndex {
            kind,
            signs,
            present,
            past: match tail.past {
                Some(past) => past,
                None => Scheme::A,
            },
            circled: tail.circled,
            passiveless: tail.passiveless,
            yo: tail.yo,
            noted: tail.noted,
        },
    )
}

/// Reads the class at the head of an index.
fn head(bare: &str) -> (res: Option<(Kind, usize)>)
    ensures
        match res {
            Some((kind, next)) => head_at(bare@) == Some((kind, next as int)) && next <= bare@.len(),
            None => head_at(bare@) is None,
        },
{
    let n = bare.unicode_len();
    if n > 0 && bare.get_char(0) == '^' {
        return Some((Kind::Isolated, 1));
    }
    let mut value: u32 = 0;
    let mut i: usize = 0;
    while i < n && is_ascii_digit(bare.get_char(i))
        invariant
            n == bare@.len(),
            i <= n,
            digits_end(bare@, 0) == digits_end(bare@, i as int),
            value == (if digits_value(bare@, 0, i as int) > 256 {
                256
            } else {
                digits_value(bare@, 0, i as int)
            }),
        decreases n - i,
    {
        let digit = bare.get_char(i) as u32 - '0' as u32;
        value = if value * 10 + digit > 256 {
            256
        } else {
            value * 10 + digit
        };
        i = i + 1;
    }
    if i == 0 {
        return None;
    }
    if value > 255 {
        return None;
    }
    match Kind::of(value as u8) {
        Some(kind) => Some((kind, i)),
        None => None,
    }
}

/// Reports whether a letter is an ASCII digit.
fn is_ascii_digit(c: char) -> (res: bool)
    ensures
        res == is_digit(c),
{
    '0' <= c && c <= '9'
}

/// Reads the ring and the star, in any order and as often as written.
fn signs(bare: &str, at: usize) -> (res: (Signs, usize))
    requires
        at <= bare@.len(),
    ensures
        (res.0, res.1 as int) == signs_from(bare@, at as int, Signs { ringed: false, fleeting: false }),
        at <= res.1 <= bare@.len(),
{
    let n = bare.unicode_len();
    let mut held = Signs { ringed: false, fleeting: false };
    let mut i = at;
    proof {
        signs_stay_in(bare@, at as int, held);
    }
    while i < n
        invariant
            n == bare@.len(),
            at <= i <= n,
            signs_from(bare@, i as int, held) == signs_from(
                bare@,
                at as int,
                Signs { ringed: false, fleeting: false },
            ),
        ensures
            at <= i <= n,
            signs_from(bare@, i as int, held) == signs_from(
                bare@,
                at as int,
                Signs { ringed: false, fleeting: false },
            ),
            signs_from(bare@, i as int, held) == (held, i as int),
        decreases n - i,
    {
        let c = bare.get_char(i);
        if c == '°' {
            held.ringed = true;
        } else if c == '*' {
            held.fleeting = true;
        } else {
            break;
        }
        i = i + 1;
    }
    proof {
        signs_stay_in(bare@, i as int, held);
    }
    (held, i)
}

} // verus!
