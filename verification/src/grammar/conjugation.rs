//! The conjugation of Russian verbs: which set of personal endings a verb
//! takes, the classes that say how its present stem is got, and the
//! paradigms built on both.

use vstd::prelude::*;

use crate::text::{among, ends_with, ends_with_str, eq_str, is_among, strip_suffix};

pub mod class;
pub mod index;
pub mod inflect;
pub mod endings;
pub mod imperative;
pub mod participle;
pub mod past;
pub mod reading;
pub mod reflexive;
pub mod stated;
pub mod stems;





verus! {

/// The set of personal endings a verb takes in the present.
#[derive(Debug, Clone, Copy, PartialEq, Eq, Hash, Structural)]
pub enum Conjugation {
    /// `-ешь`, `-ет`, `-ут`: `читать`, `нести`.
    First,
    /// `-ишь`, `-ит`, `-ят`: `любить`, `смотреть`.
    Second,
    /// The two sets at once: `хотеть`, `бежать`.
    Mixed,
    /// Neither set: `есть`, `дать`.
    Irregular,
}

/// The prefixes a verb takes without leaving the group its bare verb is in:
/// `написать` is conjugated as `писать` is.
pub const PREFIXES: [&'static str; 42] = [
    "в", "во", "вз", "взо", "вс", "вы", "до", "за", "из", "изо", "ис", "на", "над", "надо",
    "недо", "о", "об", "обо", "от", "ото", "пере", "по", "под", "подо", "пре", "при", "про",
    "раз", "разо", "рас", "с", "со", "су", "у", "воз", "вос", "низ", "нис", "съ", "въ", "объ",
    "отъ",
];

/// The verbs in `-ить` that § 44 of the code of 1956 sends to the first
/// conjugation.
pub const FIRST_IN_IT: [&'static str; 4] = ["брить", "зиждиться", "стелить", "почить"];

/// The verbs outside `-ить` that § 44 sends to the second conjugation: the
/// six in `-еть`, the four in `-ать`, and `спать` beside them.
pub const SECOND_OUTSIDE_IT: [&'static str; 12] = [
    "гнать", "держать", "дышать", "слышать", "видеть", "ненавидеть", "обидеть", "зависеть",
    "вертеть", "терпеть", "смотреть", "спать",
];

/// The verbs that draw from both sets.
pub const MIXED: [&'static str; 2] = ["хотеть", "бежать"];

/// The verbs that stand outside both sets.
pub const IRREGULAR: [&'static str; 2] = ["есть", "дать"];

/// Whether a verb is one of a closed list, bare or under a prefix: a prefix
/// does not move a verb out of the group its bare verb is in.
pub open spec fn listed_in(verb: Seq<char>, words: Seq<&str>) -> bool {
    exists|i: int|
        0 <= i < words.len() && (words[i]@ == verb || (ends_with(verb, words[i]@) && among(
            verb.subrange(0, verb.len() - words[i]@.len()),
            PREFIXES@,
        )))
}

/// Reports whether a verb is one of a closed list, bare or under a prefix.
pub fn listed(verb: &str, words: &[&str]) -> (res: bool)
    ensures
        res == listed_in(verb@, words@),
{
    let mut i: usize = 0;
    while i < words.len()
        invariant
            i <= words@.len(),
            forall|k: int|
                0 <= k < i ==> !(words@[k]@ == verb@ || (ends_with(verb@, words@[k]@) && among(
                    verb@.subrange(0, verb@.len() - words@[k]@.len()),
                    PREFIXES@,
                ))),
        decreases words@.len() - i,
    {
        let word = words[i];
        if eq_str(word, verb) {
            return true;
        }
        match strip_suffix(verb, word) {
            Some(head) => {
                if is_among(head, &PREFIXES) {
                    return true;
                }
            },
            None => {},
        }
        i = i + 1;
    }
    false
}

/// The conjugation § 44 gives a verb, read off its infinitive.
pub open spec fn conjugation_of(infinitive: Seq<char>) -> Conjugation {
    if listed_in(infinitive, IRREGULAR@) {
        Conjugation::Irregular
    } else if listed_in(infinitive, MIXED@) {
        Conjugation::Mixed
    } else if listed_in(infinitive, SECOND_OUTSIDE_IT@) {
        Conjugation::Second
    } else if ends_with(infinitive, "ить"@) && !listed_in(infinitive, FIRST_IN_IT@) {
        Conjugation::Second
    } else {
        Conjugation::First
    }
}

/// Names the conjugation of a verb, given its infinitive.
///
/// Every verb in `-ить` takes the second conjugation but the few § 44 names,
/// every other verb the first but the eleven it names; `хотеть` and `бежать`
/// take both, and `есть` and `дать` neither.
pub fn of(infinitive: &str) -> (res: Conjugation)
    ensures
        res == conjugation_of(infinitive@),
{
    if listed(infinitive, &IRREGULAR) {
        return Conjugation::Irregular;
    }
    if listed(infinitive, &MIXED) {
        return Conjugation::Mixed;
    }
    if listed(infinitive, &SECOND_OUTSIDE_IT) {
        return Conjugation::Second;
    }
    if ends_with_str(infinitive, "ить") && !listed(infinitive, &FIRST_IN_IT) {
        return Conjugation::Second;
    }
    Conjugation::First
}

/// A prefix does not move a verb out of the list its bare verb is on:
/// `написать` stands wherever `писать` stands.
pub proof fn a_prefix_keeps_a_verb_on_its_list(prefix: Seq<char>, verb: Seq<char>, words: Seq<&str>)
    requires
        among(prefix, PREFIXES@),
        among(verb, words),
    ensures
        listed_in(prefix + verb, words),
{
    let i = choose|i: int| 0 <= i < words.len() && words[i]@ == verb;
    let whole = prefix + verb;
    assert(whole.subrange(whole.len() - verb.len(), whole.len() as int) =~= verb);
    assert(whole.subrange(0, whole.len() - words[i]@.len()) =~= prefix);
}

/// A verb that stands outside both sets of endings stands outside them under
/// any prefix: `задать`, `съесть`.
pub proof fn a_prefix_keeps_an_irregular_verb_irregular(prefix: Seq<char>, verb: Seq<char>)
    requires
        among(prefix, PREFIXES@),
        among(verb, IRREGULAR@),
    ensures
        conjugation_of(prefix + verb) == Conjugation::Irregular,
{
    a_prefix_keeps_a_verb_on_its_list(prefix, verb, IRREGULAR@);
}

} // verus!
