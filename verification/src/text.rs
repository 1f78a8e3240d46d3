//! Written words as sequences of letters, and the few questions every
//! paradigm asks of them: how a word ends, what it is without its ending, and
//! whether two spellings are one form once `ё` is folded into `е`.

use vstd::prelude::*;

verus! {

/// The last letter of a word, absent for the empty one.
pub open spec fn last_of(s: Seq<char>) -> Option<char> {
    if s.len() == 0 {
        None
    } else {
        Some(s.last())
    }
}

/// Whether a word ends in the letters given.
pub open spec fn ends_with(s: Seq<char>, tail: Seq<char>) -> bool {
    tail.len() <= s.len() && s.subrange(s.len() - tail.len(), s.len() as int) == tail
}

/// Whether a word opens with the letters given.
pub open spec fn starts_with(s: Seq<char>, head: Seq<char>) -> bool {
    head.len() <= s.len() && s.subrange(0, head.len() as int) == head
}

/// The word without the letters it ends in, when it ends in them.
pub open spec fn without_suffix(s: Seq<char>, tail: Seq<char>) -> Option<Seq<char>> {
    if ends_with(s, tail) {
        Some(s.subrange(0, s.len() - tail.len()))
    } else {
        None
    }
}

/// The letters of a word that may be absent.
pub open spec fn seen(word: Option<String>) -> Option<Seq<char>> {
    match word {
        Some(held) => Some(held@),
        None => None,
    }
}

/// The letter `ё` written the way every writer may write it.
pub open spec fn fold_letter(c: char) -> char {
    if c == 'ё' {
        'е'
    } else {
        c
    }
}

/// A spelling with every `ё` written `е`.
pub open spec fn folded(s: Seq<char>) -> Seq<char> {
    s.map_values(|c: char| fold_letter(c))
}

/// Whether a word holds a letter anywhere.
pub open spec fn has_letter(s: Seq<char>, c: char) -> bool {
    exists|i: int| 0 <= i < s.len() && s[i] == c
}

/// The last letter of a written word.
pub fn last_char(s: &str) -> (res: Option<char>)
    ensures
        res == last_of(s@),
{
    let n = s.unicode_len();
    if n == 0 {
        None
    } else {
        Some(s.get_char(n - 1))
    }
}

/// The letter before the last one.
pub fn second_last_char(s: &str) -> (res: Option<char>)
    ensures
        s@.len() >= 2 ==> res == Some(s@[s@.len() - 2]),
        s@.len() < 2 ==> res is None,
{
    let n = s.unicode_len();
    if n < 2 {
        None
    } else {
        Some(s.get_char(n - 2))
    }
}

/// Reports whether a word ends in the letters given.
pub fn ends_with_str(s: &str, tail: &str) -> (res: bool)
    ensures
        res == ends_with(s@, tail@),
{
    let n = s.unicode_len();
    let m = tail.unicode_len();
    if m > n {
        return false;
    }
    let start = n - m;
    let mut j: usize = 0;
    while j < m
        invariant
            n == s@.len(),
            m == tail@.len(),
            m <= n,
            start == n - m,
            j <= m,
            forall|k: int| 0 <= k < j ==> s@[start + k] == tail@[k],
        decreases m - j,
    {
        if s.get_char(start + j) != tail.get_char(j) {
            assert(s@.subrange(n - m, n as int)[j as int] != tail@[j as int]);
            return false;
        }
        j = j + 1;
    }
    assert(s@.subrange(n - m, n as int) =~= tail@);
    true
}

/// Reports whether a word opens with the letters given.
pub fn starts_with_str(s: &str, head: &str) -> (res: bool)
    ensures
        res == starts_with(s@, head@),
{
    let n = s.unicode_len();
    let m = head.unicode_len();
    if m > n {
        return false;
    }
    let mut j: usize = 0;
    while j < m
        invariant
            n == s@.len(),
            m == head@.len(),
            m <= n,
            j <= m,
            forall|k: int| 0 <= k < j ==> s@[k] == head@[k],
        decreases m - j,
    {
        if s.get_char(j) != head.get_char(j) {
            assert(s@.subrange(0, m as int)[j as int] != head@[j as int]);
            return false;
        }
        j = j + 1;
    }
    assert(s@.subrange(0, m as int) =~= head@);
    true
}

/// Reports whether two words are spelled with the same letters.
pub fn eq_str(a: &str, b: &str) -> (res: bool)
    ensures
        res == (a@ == b@),
{
    let n = a.unicode_len();
    let m = b.unicode_len();
    if n != m {
        return false;
    }
    let mut j: usize = 0;
    while j < n
        invariant
            n == a@.len(),
            m == b@.len(),
            n == m,
            j <= n,
            forall|k: int| 0 <= k < j ==> a@[k] == b@[k],
        decreases n - j,
    {
        if a.get_char(j) != b.get_char(j) {
            return false;
        }
        j = j + 1;
    }
    assert(a@ =~= b@);
    true
}

/// Reports whether two spellings are one form, `ё` and `е` taken as one.
pub fn same(a: &str, b: &str) -> (res: bool)
    ensures
        res == (folded(a@) == folded(b@)),
{
    let n = a.unicode_len();
    let m = b.unicode_len();
    if n != m {
        assert(folded(a@).len() != folded(b@).len());
        return false;
    }
    let mut j: usize = 0;
    while j < n
        invariant
            n == a@.len(),
            m == b@.len(),
            n == m,
            j <= n,
            forall|k: int| 0 <= k < j ==> fold_letter(a@[k]) == fold_letter(b@[k]),
        decreases n - j,
    {
        let x = a.get_char(j);
        let y = b.get_char(j);
        let fx = if x == 'ё' { 'е' } else { x };
        let fy = if y == 'ё' { 'е' } else { y };
        if fx != fy {
            assert(folded(a@)[j as int] != folded(b@)[j as int]);
            return false;
        }
        j = j + 1;
    }
    assert(folded(a@) =~= folded(b@));
    true
}

/// Reports whether a word holds a letter anywhere.
pub fn contains_char(s: &str, c: char) -> (res: bool)
    ensures
        res == has_letter(s@, c),
{
    let n = s.unicode_len();
    let mut j: usize = 0;
    while j < n
        invariant
            n == s@.len(),
            j <= n,
            forall|k: int| 0 <= k < j ==> s@[k] != c,
        decreases n - j,
    {
        if s.get_char(j) == c {
            return true;
        }
        j = j + 1;
    }
    false
}

/// The word without the letters it ends in, when it ends in them.
pub fn strip_suffix<'a>(s: &'a str, tail: &str) -> (res: Option<&'a str>)
    ensures
        res is Some <==> ends_with(s@, tail@),
        res matches Some(head) ==> head@ == s@.subrange(0, s@.len() - tail@.len()),
{
    if !ends_with_str(s, tail) {
        return None;
    }
    let n = s.unicode_len();
    let m = tail.unicode_len();
    Some(s.substring_char(0, n - m))
}

/// The word without its last letter.
pub fn drop_last<'a>(s: &'a str) -> (res: &'a str)
    requires
        s@.len() > 0,
    ensures
        res@ == s@.drop_last(),
{
    let n = s.unicode_len();
    let held = s.substring_char(0, n - 1);
    assert(held@ =~= s@.drop_last());
    held
}

/// The word without its first letter.
pub fn drop_first<'a>(s: &'a str) -> (res: &'a str)
    requires
        s@.len() > 0,
    ensures
        res@ == s@.drop_first(),
{
    let n = s.unicode_len();
    let held = s.substring_char(1, n);
    assert(held@ =~= s@.drop_first());
    held
}

/// Two spellings written as one word.
pub fn joined(a: &str, b: &str) -> (res: String)
    ensures
        res@ == a@ + b@,
{
    let mut held = String::from_str(a);
    held.append(b);
    held
}

/// Three spellings written as one word.
pub fn joined3(a: &str, b: &str, c: &str) -> (res: String)
    ensures
        res@ == a@ + b@ + c@,
{
    let mut held = String::from_str(a);
    held.append(b);
    held.append(c);
    held
}

/// A spelling copied into a string of its own.
pub fn owned(a: &str) -> (res: String)
    ensures
        res@ == a@,
{
    String::from_str(a)
}

/// Whether a word is one of the words of a closed list.
pub open spec fn among(w: Seq<char>, words: Seq<&str>) -> bool {
    exists|i: int| 0 <= i < words.len() && words[i]@ == w
}

/// Reports whether a word is one of the words of a closed list.
pub fn is_among(w: &str, words: &[&str]) -> (res: bool)
    ensures
        res == among(w@, words@),
{
    let mut i: usize = 0;
    while i < words.len()
        invariant
            i <= words@.len(),
            forall|k: int| 0 <= k < i ==> words@[k]@ != w@,
        decreases words@.len() - i,
    {
        if eq_str(words[i], w) {
            return true;
        }
        i = i + 1;
    }
    false
}

/// A word with one letter written after it: std's `String::push`, which
/// appends the letter to the end of the string. The contract claims the new
/// contents are the old ones with that letter last.
#[verifier::external_body]
pub(crate) fn push_letter(word: &mut String, letter: char)
    ensures
        final(word)@ == old(word)@.push(letter),
{
    word.push(letter);
}

/// The letter at a position of a word, as a word of its own.
pub fn letter_at<'a>(s: &'a str, i: usize) -> (res: &'a str)
    requires
        i < s@.len(),
    ensures
        res@ == seq![s@[i as int]],
{
    let n = s.unicode_len();
    let held = s.substring_char(i, i + 1);
    assert(held@ =~= seq![s@[i as int]]);
    held
}

/// The first letters of a word, up to a position.
pub fn head_of<'a>(s: &'a str, to: usize) -> (res: &'a str)
    requires
        to <= s@.len(),
    ensures
        res@ == s@.subrange(0, to as int),
{
    s.substring_char(0, to)
}

/// The letters of a word from a position to its end.
pub fn rest_of<'a>(s: &'a str, from: usize) -> (res: &'a str)
    requires
        from <= s@.len(),
    ensures
        res@ == s@.subrange(from as int, s@.len() as int),
{
    let n = s.unicode_len();
    s.substring_char(from, n)
}

/// What std's `str::to_lowercase` gives for a word: its letters lowered by
/// Unicode's case tables, a function of the word alone.
pub uninterp spec fn lowercase(word: Seq<char>) -> Seq<char>;

/// Whether every letter of a word is a lower-case Cyrillic letter, `а` to
/// `я` or `ё`.
pub open spec fn lower_cyrillic(word: Seq<char>) -> bool {
    forall|i: int|
        0 <= i < word.len() ==> (('а' <= #[trigger] word[i] && word[i] <= 'я') || word[i] == 'ё')
}

/// A word written in lower case: std's `str::to_lowercase`. The contract
/// names its result, and claims one fact of it: a word of lower-case
/// Cyrillic letters comes back as it is. std maps each letter by its Unicode
/// lowercase mapping and keeps a letter that has none, and these letters,
/// lower case already, have none. Which letters lower to what otherwise is
/// left to Unicode's tables.
#[verifier::external_body]
pub(crate) fn lowered(word: &str) -> (res: String)
    ensures
        res@ == lowercase(word@),
        lower_cyrillic(word@) ==> res@ == word@,
{
    word.to_lowercase()
}

/// The last position at which a letter stands in a word, `-1` when it
/// stands nowhere.
pub open spec fn last_index_of(s: Seq<char>, c: char) -> int
    decreases s.len(),
{
    if s.len() == 0 {
        -1
    } else if s.last() == c {
        s.len() - 1
    } else {
        last_index_of(s.drop_last(), c)
    }
}

pub proof fn last_index_in(s: Seq<char>, c: char)
    ensures
        -1 <= last_index_of(s, c) < s.len(),
        last_index_of(s, c) >= 0 ==> s[last_index_of(s, c)] == c,
        forall|k: int| last_index_of(s, c) < k < s.len() ==> s[k] != c,
    decreases s.len(),
{
    if s.len() > 0 && s.last() != c {
        last_index_in(s.drop_last(), c);
        assert forall|k: int| last_index_of(s, c) < k < s.len() implies s[k] != c by {
            if k < s.len() - 1 {
                assert(s[k] == s.drop_last()[k]);
            }
        }
    }
}

/// The last position at which a letter stands in a word, if it stands
/// anywhere.
pub fn find_last(s: &str, c: char) -> (res: Option<usize>)
    ensures
        match res {
            Some(at) => at as int == last_index_of(s@, c) && at < s@.len(),
            None => last_index_of(s@, c) < 0,
        },
{
    proof {
        last_index_in(s@, c);
    }
    let n = s.unicode_len();
    let mut i = n;
    while i > 0
        invariant
            n == s@.len(),
            i <= n,
            forall|k: int| i <= k < n ==> s@[k] != c,
            -1 <= last_index_of(s@, c) < n,
            last_index_of(s@, c) >= 0 ==> s@[last_index_of(s@, c)] == c,
            forall|k: int| last_index_of(s@, c) < k < n ==> s@[k] != c,
        decreases i,
    {
        if s.get_char(i - 1) == c {
            return Some(i - 1);
        }
        i = i - 1;
    }
    None
}

/// A word with the letter at a position written as another.
pub fn replaced_at(s: &str, at: usize, with: &str) -> (res: String)
    requires
        at < s@.len(),
    ensures
        res@ == s@.subrange(0, at as int) + with@ + s@.subrange(at as int + 1, s@.len() as int),
{
    let n = s.unicode_len();
    joined3(head_of(s, at), with, rest_of(s, at + 1))
}

/// Folding a spelling that is folded already changes nothing.
pub proof fn folding_is_settled(s: Seq<char>)
    ensures
        folded(folded(s)) == folded(s),
{
    assert(folded(folded(s)) =~= folded(s));
}

} // verus!
