//! The circled numerals of a verb index, each one cell's departure from its
//! class.

use vstd::prelude::*;

pub use crate::grammar::declension::index::circled::Reach;

verus! {

/// The circled numerals a verb index carries.
#[derive(Debug, Clone, Copy, PartialEq, Eq, Hash, Default, Structural)]
pub struct Circled {
    /// ①: the past stress retreats onto the prefix everywhere but the
    /// feminine — `умереть 9b/c(1)`: `у́мер, умерла́, у́мерло`.
    pub past_prefixed: Option<Reach>,
    /// ②: the imperative takes `-ь(те)` or `-й(те)` where the class default
    /// gives `-и(те)` — `плюнуть 3a(2)`: `плю́нь`.
    pub imperative_soft: Option<Reach>,
    /// ③: the imperative splits, `-и` in the singular and `-ьте` in the
    /// plural — `вылезти 7a(3)`: `вы́лези, вы́лезьте`.
    pub imperative_split: Option<Reach>,
    /// ④: the present active participle stresses one syllable earlier than
    /// the scheme says — `любить 4c(4)`: `лю́бящий` against `нося́щий`.
    pub acting_retracted: Option<Reach>,
    /// ⑤: the masculine past of a `3°` verb keeps `-ну-` — `гаснуть
    /// 3°a((5))(6)`: `га́снул` beside `га́с`.
    pub masculine_kept: Option<Reach>,
    /// ⑥: the past active participle and gerund of a `3°` verb keep `-ну-` —
    /// `достигнуть 3°a((6))`: `дости́гнувший` beside `дости́гший`.
    pub bygone_kept: Option<Reach>,
    /// ⑦: the past passive participle keeps the ending stress, `-ённый`,
    /// `-а́нный` — `заменить 4c(7)`: `заменённый`.
    pub passive_stressed: Option<Reach>,
    /// ⑧: the past passive participle retreats to the third syllable from
    /// the end, unstressed `-енный` — `вкроить 4b(8)`: `вкро́енный`.
    pub passive_retracted: Option<Reach>,
    /// ⑨: the perfective past gerund is written `-я́`, `-а́` on the future
    /// stem — `внести 7b/b(9)`: `внеся́` beside `внёсши`.
    pub gerund_future: Option<Reach>,
}

impl Circled {
    /// A record with no numerals, which is what most indexes carry.
    pub open spec fn empty() -> Circled {
        Circled {
            past_prefixed: None,
            imperative_soft: None,
            imperative_split: None,
            acting_retracted: None,
            masculine_kept: None,
            bygone_kept: None,
            passive_stressed: None,
            passive_retracted: None,
            gerund_future: None,
        }
    }

    /// A record with no numerals, which is what most indexes carry.
    pub fn none() -> (res: Circled)
        ensures
            res == Circled::empty(),
    {
        Circled {
            past_prefixed: None,
            imperative_soft: None,
            imperative_split: None,
            acting_retracted: None,
            masculine_kept: None,
            bygone_kept: None,
            passive_stressed: None,
            passive_retracted: None,
            gerund_future: None,
        }
    }

    /// The record with the cell a numeral's digit names set to a reach.
    pub open spec fn marked(self, digit: char, reach: Reach) -> Circled {
        if digit == '1' {
            Circled { past_prefixed: Some(reach), ..self }
        } else if digit == '2' {
            Circled { imperative_soft: Some(reach), ..self }
        } else if digit == '3' {
            Circled { imperative_split: Some(reach), ..self }
        } else if digit == '4' {
            Circled { acting_retracted: Some(reach), ..self }
        } else if digit == '5' {
            Circled { masculine_kept: Some(reach), ..self }
        } else if digit == '6' {
            Circled { bygone_kept: Some(reach), ..self }
        } else if digit == '7' {
            Circled { passive_stressed: Some(reach), ..self }
        } else if digit == '8' {
            Circled { passive_retracted: Some(reach), ..self }
        } else if digit == '9' {
            Circled { gerund_future: Some(reach), ..self }
        } else {
            self
        }
    }
}

/// Whether a digit names one of the nine numerals.
pub open spec fn is_numeral_digit(c: char) -> bool {
    c == '1' || c == '2' || c == '3' || c == '4' || c == '5' || c == '6' || c == '7' || c == '8'
        || c == '9'
}

/// Whether the letter at a position is the one given.
pub open spec fn at_is(s: Seq<char>, at: int, c: char) -> bool {
    0 <= at < s.len() && s[at] == c
}

/// Whether the numeral opened before a position is doubled, `((N))`.
pub open spec fn doubled_at(s: Seq<char>, at: int) -> bool {
    at_is(s, at, '(')
}

/// Where the digit of a numeral stands.
pub open spec fn digit_at(s: Seq<char>, at: int) -> int {
    if doubled_at(s, at) {
        at + 1
    } else {
        at
    }
}

/// Whether a numeral whose opening bracket was already read stands whole at
/// a position: a digit, its closing bracket, and a second one when doubled.
pub open spec fn numeral_closes(s: Seq<char>, at: int) -> bool {
    let d = digit_at(s, at);
    &&& d < s.len()
    &&& at_is(s, d + 1, ')')
    &&& (doubled_at(s, at) ==> at_is(s, d + 2, ')'))
}

/// The numeral read at a position, absent when it is malformed or names no
/// cell.
pub open spec fn numeral_at(s: Seq<char>, at: int) -> Option<(char, Reach)> {
    let d = digit_at(s, at);
    if numeral_closes(s, at) && is_numeral_digit(s[d]) {
        Some((s[d], if doubled_at(s, at) { Reach::Either } else { Reach::Whole }))
    } else {
        None
    }
}

/// Where reading a numeral stops, whether or not it was read: each letter is
/// taken only when it is the one expected, the digit always.
pub open spec fn numeral_end(s: Seq<char>, at: int) -> int {
    let d = digit_at(s, at);
    if d >= s.len() {
        d
    } else if !at_is(s, d + 1, ')') {
        d + 1
    } else if doubled_at(s, at) {
        if at_is(s, d + 2, ')') {
            d + 3
        } else {
            d + 2
        }
    } else {
        d + 2
    }
}

/// Reads one circled numeral after its opening bracket, at a position, into
/// the record: `(N)` reaches the whole cell, `((N))` either form. Returns
/// whether a numeral was read and where the reading stopped.
pub fn numeral(written: &str, at: usize, circled: &mut Circled) -> (res: (bool, usize))
    requires
        at <= written@.len(),
    ensures
        res.0 == numeral_at(written@, at as int) is Some,
        res.1 == numeral_end(written@, at as int),
        at <= res.1 <= written@.len(),
        *final(circled) == match numeral_at(written@, at as int) {
            Some((digit, reach)) => old(circled).marked(digit, reach),
            None => *old(circled),
        },
{
    let n = written.unicode_len();
    let doubled = at < n && written.get_char(at) == '(';
    let d = if doubled { at + 1 } else { at };
    if d >= n {
        return (false, d);
    }
    let digit = written.get_char(d);
    if !(d + 1 < n && written.get_char(d + 1) == ')') {
        return (false, d + 1);
    }
    let mut end = d + 2;
    if doubled {
        if !(d + 2 < n && written.get_char(d + 2) == ')') {
            return (false, d + 2);
        }
        end = d + 3;
    }
    let reach = if doubled { Reach::Either } else { Reach::Whole };
    if digit == '1' {
        circled.past_prefixed = Some(reach);
    } else if digit == '2' {
        circled.imperative_soft = Some(reach);
    } else if digit == '3' {
        circled.imperative_split = Some(reach);
    } else if digit == '4' {
        circled.acting_retracted = Some(reach);
    } else if digit == '5' {
        circled.masculine_kept = Some(reach);
    } else if digit == '6' {
        circled.bygone_kept = Some(reach);
    } else if digit == '7' {
        circled.passive_stressed = Some(reach);
    } else if digit == '8' {
        circled.passive_retracted = Some(reach);
    } else if digit == '9' {
        circled.gerund_future = Some(reach);
    } else {
        return (false, end);
    }
    (true, end)
}

} // verus!
