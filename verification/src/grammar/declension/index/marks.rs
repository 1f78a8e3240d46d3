//! The marks after the stress letter of a declension index: the circled
//! numerals, `, ё`, and whatever the rules here do not read.

use vstd::prelude::*;

use super::circled::{Circled, Reach};
use crate::grammar::conjugation::index::circled::{at_is, digit_at, doubled_at, numeral_closes, numeral_end};

verus! {

/// What the marks after the stress letter state.
#[derive(Debug, Clone, Copy, PartialEq, Eq, Structural)]
pub struct Tail {
    /// The circled numerals.
    pub circled: Circled,
    /// Whether the index writes `, ё`.
    pub yo: bool,
    /// Whether the tail held marks the rules here do not read.
    pub noted: bool,
}

/// A tail that states nothing.
pub open spec fn blank() -> Tail {
    Tail { circled: Circled::empty(), yo: false, noted: false }
}

/// The numeral read at a position, absent when it is malformed or names no
/// cell: `(1)`, `(2)`, `(3)`, and the first two doubled.
pub open spec fn numeral_at(s: Seq<char>, at: int) -> Option<(char, Reach)> {
    let d = digit_at(s, at);
    if numeral_closes(s, at) && (s[d] == '1' || s[d] == '2' || (s[d] == '3' && !doubled_at(s, at))) {
        Some((s[d], if doubled_at(s, at) { Reach::Either } else { Reach::Whole }))
    } else {
        None
    }
}

/// The tail read from a position to the end of the index.
pub open spec fn tail_from(s: Seq<char>, at: int, tail: Tail) -> Tail
    decreases s.len() - at,
{
    if at < 0 || at >= s.len() {
        tail
    } else {
        let p = at + 1;
        if s[at] == '(' {
            let held = match numeral_at(s, p) {
                Some((digit, reach)) => Tail { circled: tail.circled.marked(digit, reach), ..tail },
                None => Tail { noted: true, ..tail },
            };
            if at < numeral_end(s, p) <= s.len() {
                tail_from(s, numeral_end(s, p), held)
            } else {
                held
            }
        } else if s[at] == ',' {
            if at_is(s, p, ' ') {
                if at_is(s, p + 1, 'ё') {
                    tail_from(s, p + 2, Tail { yo: true, ..tail })
                } else {
                    tail_from(s, p + 1, Tail { noted: true, ..tail })
                }
            } else {
                tail_from(s, p, Tail { noted: true, ..tail })
            }
        } else {
            tail_from(s, p, Tail { noted: true, ..tail })
        }
    }
}

/// Reads one circled numeral after its opening bracket into the record.
/// Returns whether a numeral was read and where the reading stopped.
pub fn numeral(written: &str, at: usize, circled: &mut Circled) -> (res: (bool, usize))
    requires
        at <= written@.len(),
    ensures
        res.0 == numeral_at(written@, at as int) is Some,
        res.1 == numeral_end(written@, at as int),
        at <= res.1 <= written@.len(),
        *final(circled) == match numeral_at(written@, at as int) {
            Some((digit, reach)) => old(circled).marked(digit, reach),
            None => *old(circled),
        },
{
    let n = written.unicode_len();
    let doubled = at < n && written.get_char(at) == '(';
    let d = if doubled { at + 1 } else { at };
    if d >= n {
        return (false, d);
    }
    let digit = written.get_char(d);
    if !(d + 1 < n && written.get_char(d + 1) == ')') {
        return (false, d + 1);
    }
    let mut end = d + 2;
    if doubled {
        if !(d + 2 < n && written.get_char(d + 2) == ')') {
            return (false, d + 2);
        }
        end = d + 3;
    }
    let reach = if doubled { Reach::Either } else { Reach::Whole };
    if digit == '1' {
        circled.nominative = Some(reach);
    } else if digit == '2' {
        circled.genitive = Some(reach);
    } else if digit == '3' && !doubled {
        circled.prepositional = Some(reach);
    } else {
        return (false, end);
    }
    (true, end)
}

/// Reads the marks from a position to the end of an index.
pub fn read(written: &str, at: usize) -> (res: Tail)
    requires
        at <= written@.len(),
    ensures
        res == tail_from(written@, at as int, blank()),
{
    let n = written.unicode_len();
    let mut tail = Tail { circled: Circled::none(), yo: false, noted: false };
    let mut i = at;
    while i < n
        invariant
            n == written@.len(),
            at <= i <= n,
            tail_from(written@, i as int, tail) == tail_from(written@, at as int, blank()),
        decreases n - i,
    {
        let held = written.get_char(i);
        let p = i + 1;
        if held == '(' {
            let (read, next) = numeral(written, p, &mut tail.circled);
            if !read {
                tail.noted = true;
            }
            i = next;
        } else if held == ',' {
            if p < n && written.get_char(p) == ' ' {
                if p + 1 < n && written.get_char(p + 1) == 'ё' {
                    tail.yo = true;
                    i = p + 2;
                } else {
                    tail.noted = true;
                    i = p + 1;
                }
            } else {
                tail.noted = true;
                i = p;
            }
        } else {
            tail.noted = true;
            i = p;
        }
    }
    tail
}

} // verus!
