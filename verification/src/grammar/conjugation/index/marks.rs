//! The marks after the present scheme of a verb index: the past scheme after
//! its slash, the circled numerals, `X`, `, ё`, and whatever the rules here
//! do not read.

use vstd::prelude::*;

use super::circled::{self, numeral_at, numeral_end, Circled};
use super::scheme::{self, scheme_at, Scheme};

verus! {

/// What the marks after the present scheme state.
#[derive(Debug, Clone, Copy, PartialEq, Eq, Structural)]
pub struct Tail {
    /// The past scheme after the slash, absent when the index writes none.
    pub past: Option<Scheme>,
    /// The circled numerals.
    pub circled: Circled,
    /// Whether the index writes `X`.
    pub passiveless: bool,
    /// Whether the index writes `, ё`.
    pub yo: bool,
    /// Whether the tail held marks the rules here do not read.
    pub noted: bool,
}

/// A tail that states nothing.
pub open spec fn blank() -> Tail {
    Tail { past: None, circled: Circled::empty(), passiveless: false, yo: false, noted: false }
}

/// Whether the letter at a position is one a past scheme opens with.
pub open spec fn opens_scheme(s: Seq<char>, at: int) -> bool {
    0 <= at < s.len() && (s[at] == 'a' || s[at] == 'а' || s[at] == 'b' || s[at] == 'c')
}

/// The tail read from a position to the end of the index, given what was
/// read before it.
pub open spec fn tail_from(s: Seq<char>, at: int, tail: Tail) -> Tail
    decreases s.len() - at,
{
    if at < 0 || at >= s.len() {
        tail
    } else {
        let p = at + 1;
        if s[at] == '(' {
            let held = match numeral_at(s, p) {
                Some((digit, reach)) => Tail { circled: tail.circled.marked(digit, reach), ..tail },
                None => Tail { noted: true, ..tail },
            };
            if numeral_end(s, p) > at {
                tail_from(s, numeral_end(s, p), held)
            } else {
                held
            }
        } else if s[at] == '/' {
            if tail.past is None && opens_scheme(s, p) {
                match scheme_at(s, p) {
                    Some((past, next)) => if at < next <= s.len() {
                        tail_from(s, next, Tail { past: Some(past), ..tail })
                    } else {
                        tail
                    },
                    None => Tail { noted: true, ..tail },
                }
            } else {
                Tail { noted: true, ..tail }
            }
        } else if s[at] == 'X' {
            if 0 <= p < s.len() && s[p] == '1' {
                tail_from(s, p + 1, Tail { passiveless: true, noted: true, ..tail })
            } else {
                tail_from(s, p, Tail { passiveless: true, ..tail })
            }
        } else if s[at] == ',' {
            if 0 <= p < s.len() && s[p] == ' ' {
                if p + 1 < s.len() && s[p + 1] == 'ё' {
                    tail_from(s, p + 2, Tail { yo: true, ..tail })
                } else {
                    tail_from(s, p + 1, Tail { noted: true, ..tail })
                }
            } else {
                tail_from(s, p, Tail { noted: true, ..tail })
            }
        } else {
            tail_from(s, p, Tail { noted: true, ..tail })
        }
    }
}

/// Reads the marks from a position to the end of an index.
pub fn read(written: &str, at: usize) -> (res: Tail)
    requires
        at <= written@.len(),
    ensures
        res == tail_from(written@, at as int, blank()),
{
    let n = written.unicode_len();
    let mut tail = Tail {
        past: None,
        circled: Circled::none(),
        passiveless: false,
        yo: false,
        noted: false,
    };
    let mut i = at;
    while i < n
        invariant
            n == written@.len(),
            at <= i <= n,
            tail_from(written@, i as int, tail) == tail_from(written@, at as int, blank()),
        decreases n - i,
    {
        let held = written.get_char(i);
        let p = i + 1;
        if held == '(' {
            let (read, next) = circled::numeral(written, p, &mut tail.circled);
            if !read {
                tail.noted = true;
            }
            i = next;
        } else if held == '/' {
            let opens = p < n && {
                let c = written.get_char(p);
                c == 'a' || c == 'а' || c == 'b' || c == 'c'
            };
            if tail.past.is_some() || !opens {
                tail.noted = true;
                return tail;
            }
            match scheme::read(written, p) {
                Some((past, next)) => {
                    tail.past = Some(past);
                    i = next;
                },
                None => {
                    tail.noted = true;
                    return tail;
                },
            }
        } else if held == 'X' {
            tail.passiveless = true;
            if p < n && written.get_char(p) == '1' {
                tail.noted = true;
                i = p + 1;
            } else {
                i = p;
            }
        } else if held == ',' {
            if p < n && written.get_char(p) == ' ' {
                if p + 1 < n && written.get_char(p + 1) == 'ё' {
                    tail.yo = true;
                    i = p + 2;
                } else {
                    tail.noted = true;
                    i = p + 1;
                }
            } else {
                tail.noted = true;
                i = p;
            }
        } else {
            tail.noted = true;
            i = p;
        }
    }
    tail
}

} // verus!
