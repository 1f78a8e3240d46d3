//! The stress schemes of a verb index: a letter, and the primes after it.

use vstd::prelude::*;

verus! {

/// Where the stress falls in one half of a verb's paradigm.
#[derive(Debug, Clone, Copy, PartialEq, Eq, Hash, Structural)]
pub enum Scheme {
    /// a: on the stem throughout.
    A,
    /// b: on the ending throughout.
    B,
    /// c: on the ending in one cell — the first singular of the present, the
    /// feminine of the past.
    C,
    /// c′: as c, with the neuter of the past doubled.
    CPrime,
    /// c″: as c′ for reflexive verbs, the feminine fixed on `-ла́сь`.
    CDouble,
}

/// What one prime mark counts for: `'` and `′` one, `"` two, anything else
/// ends the run.
pub open spec fn prime_weight(c: char) -> nat {
    if c == '\'' || c == '′' {
        1
    } else if c == '"' {
        2
    } else {
        0
    }
}

/// Where the run of primes starting at a position ends.
pub open spec fn primes_end(s: Seq<char>, at: int) -> int
    decreases s.len() - at,
{
    if 0 <= at < s.len() && prime_weight(s[at]) > 0 {
        primes_end(s, at + 1)
    } else {
        at
    }
}

/// How many primes the run starting at a position counts.
pub open spec fn primes_count(s: Seq<char>, at: int) -> nat
    decreases s.len() - at,
{
    if 0 <= at < s.len() && prime_weight(s[at]) > 0 {
        prime_weight(s[at]) + primes_count(s, at + 1)
    } else {
        0
    }
}

/// The scheme a letter and a count of primes name.
pub open spec fn scheme_named(letter: char, primes: nat) -> Option<Scheme> {
    if (letter == 'a' || letter == 'а') && primes == 0 {
        Some(Scheme::A)
    } else if letter == 'b' && primes == 0 {
        Some(Scheme::B)
    } else if letter == 'c' && primes == 0 {
        Some(Scheme::C)
    } else if letter == 'c' && primes == 1 {
        Some(Scheme::CPrime)
    } else if letter == 'c' && primes == 2 {
        Some(Scheme::CDouble)
    } else {
        None
    }
}

/// The scheme written at a position, with the position after its primes.
pub open spec fn scheme_at(s: Seq<char>, at: int) -> Option<(Scheme, int)> {
    if 0 <= at < s.len() {
        match scheme_named(s[at], primes_count(s, at + 1)) {
            Some(held) => Some((held, primes_end(s, at + 1))),
            None => None,
        }
    } else {
        None
    }
}

proof fn primes_end_bounded(s: Seq<char>, at: int)
    requires
        0 <= at <= s.len(),
    ensures
        at <= primes_end(s, at) <= s.len(),
    decreases s.len() - at,
{
    if at < s.len() && prime_weight(s[at]) > 0 {
        primes_end_bounded(s, at + 1);
    }
}

/// Reads the scheme written at a position: a letter — `a`, its Cyrillic
/// twin, `b` or `c` — and the primes after it. Returns the scheme and the
/// position after the primes.
pub fn read(written: &str, at: usize) -> (res: Option<(Scheme, usize)>)
    requires
        at <= written@.len(),
    ensures
        match res {
            Some((held, next)) => scheme_at(written@, at as int) == Some((held, next as int)),
            None => scheme_at(written@, at as int) is None,
        },
        res matches Some((_, next)) ==> at < next <= written@.len(),
{
    let n = written.unicode_len();
    if at >= n {
        return None;
    }
    let letter = written.get_char(at);
    let mut primes: usize = 0;
    let ghost mut counted: nat = 0;
    let mut i: usize = at + 1;
    loop
        invariant_except_break
            n == written@.len(),
            at < i <= n,
            primes_end(written@, at + 1) == primes_end(written@, i as int),
            primes_count(written@, at + 1) == counted + primes_count(written@, i as int),
            primes == (if counted > 3 { 3 } else { counted }),
        ensures
            n == written@.len(),
            at < i <= n,
            primes_end(written@, at + 1) == i,
            primes_count(written@, at + 1) == counted,
            primes == (if counted > 3 { 3 } else { counted }),
        decreases n - i,
    {
        if i >= n {
            break;
        }
        let held = written.get_char(i);
        let weight: usize = if held == '\'' || held == '′' {
            1
        } else if held == '"' {
            2
        } else {
            0
        };
        if weight == 0 {
            break;
        }
        proof {
            counted = (counted + weight) as nat;
        }
        primes = if primes + weight > 3 { 3 } else { primes + weight };
        i = i + 1;
    }
    proof {
        primes_end_bounded(written@, at + 1);
    }
    let scheme = if (letter == 'a' || letter == 'а') && primes == 0 {
        Scheme::A
    } else if letter == 'b' && primes == 0 {
        Scheme::B
    } else if letter == 'c' && primes == 0 {
        Scheme::C
    } else if letter == 'c' && primes == 1 {
        Scheme::CPrime
    } else if letter == 'c' && primes == 2 {
        Scheme::CDouble
    } else {
        return None;
    };
    Some((scheme, i))
}

} // verus!
