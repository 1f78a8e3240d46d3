//! The classes a Russian verb belongs to.
//!
//! A verb has two stems, not one. `читать` is built on `чита-` in the past and
//! `читай-` in the present; `писать` on `писа-` and `пиш-`; `печь` on `пек-`
//! and `печ-`. What finds the second is the class: five productive classes a
//! new verb joins, and closed groups that have to be listed. The class states
//! how the present stem is got from the infinitive and which set of personal
//! endings follows.

use vstd::prelude::*;

use super::{a_prefix_keeps_a_verb_on_its_list, conjugation_of, listed, listed_in, Conjugation, PREFIXES};
use crate::text::{among, ends_with, ends_with_str};

verus! {

/// How a verb builds its present stem.
#[derive(Debug, Clone, Copy, PartialEq, Eq, Hash, Structural)]
pub enum Class {
    /// `читать` — `читаj-`. The infinitive stem takes a glide.
    Glided,
    /// `рисовать` — `рису-`. `-ова-` and `-ева-` give way to `-у-` and `-ю-`.
    Suffixed,
    /// `крикнуть` — `крикн-`. The `-у-` of the infinitive drops.
    Dropped,
    /// `любить` — `люб-`. The `-и-` drops and the stem may swap or take a
    /// letter in the first person alone.
    Bare,
    /// `писать` — `пиш-`. The `-а-` drops and the stem swaps a consonant
    /// throughout.
    Swapped,
    /// `нести` — `нес-`, `печь` — `пек-`. The stem is a consonant, and a velar
    /// at the end of it swaps before every front vowel.
    Consonantal,
    /// `тереть` — `тр-`, `мыть` — `моj-`. Closed groups whose stem is not got
    /// from the infinitive by any rule and has to be listed.
    Listed,
}

impl Class {
    /// Which set of personal endings the class takes.
    ///
    /// Five of the seven classes take the first conjugation whatever else they
    /// do. Only the bare class takes the second, and only the listed class has
    /// no answer of its own.
    #[verifier::allow_in_spec]
    pub fn conjugation(self) -> Option<Conjugation>
        returns
            match self {
                Class::Bare => Some(Conjugation::Second),
                Class::Listed => None,
                _ => Some(Conjugation::First),
            },
    {
        match self {
            Class::Bare => Some(Conjugation::Second),
            Class::Listed => None,
            _ => Some(Conjugation::First),
        }
    }

    /// Reports whether the class is one a new Russian verb can join. Five
    /// are: the glided, the suffixed, the dropped, the bare and the
    /// consonantal. The swapping and the listed classes are closed.
    #[verifier::allow_in_spec]
    pub fn is_productive(self) -> bool
        returns
            !(self is Swapped || self is Listed),
    {
        match self {
            Class::Swapped | Class::Listed => false,
            _ => true,
        }
    }
}

/// The verbs in `-ать` whose stem swaps rather than taking a glide: the
/// dictionary states each with the swap written into its entry, `пишу` under
/// `писать`.
pub const SWAPPING: [&'static str; 36] = [
    "писать", "плясать", "искать", "казать", "резать", "вязать", "мазать", "низать", "пахать",
    "махать", "плакать", "скакать", "прятать", "шептать", "клеветать", "роптать", "хлестать",
    "свистать", "трепетать", "лепетать", "бормотать", "хохотать", "щекотать", "грохотать",
    "топтать", "колебать", "дремать", "сыпать", "щипать", "глодать", "рыскать", "полоскать",
    "тесать", "чесать", "брызгать", "двигать",
];

/// The verbs the infinitive misleads, whose forms are told rather than
/// derived: their present stem is out of any rule's reach, or they stress
/// their personal endings and so stand outside § 44.
pub const UNRULY: [&'static str; 53] = [
    "гнать", "стоять", "сидеть", "кричать", "гореть", "быть", "есть", "дать", "идти", "ехать",
    "хотеть", "бежать", "чтить", "мочь", "лечь", "сечь", "жечь", "тереть", "переть", "мереть",
    "брать", "звать", "жрать", "драть", "стлать", "слать", "мыть", "выть", "крыть", "рыть",
    "ныть", "пить", "бить", "вить", "лить", "шить", "жить", "плыть", "слыть", "давать",
    "вставать", "узнавать", "жать", "мять", "начать", "взять", "петь", "деть", "клясть",
    "красть", "расти", "сесть", "класть",
];

/// The class a verb's infinitive puts it in.
///
/// The closed lists come first, because they exist to overrule the ending, and
/// the ending decides everything else.
pub open spec fn class_of(infinitive: Seq<char>) -> Class {
    if listed_in(infinitive, UNRULY@) {
        Class::Listed
    } else if listed_in(infinitive, SWAPPING@) {
        Class::Swapped
    } else if ends_with(infinitive, "овать"@) || ends_with(infinitive, "евать"@) {
        Class::Suffixed
    } else if ends_with(infinitive, "нуть"@) {
        Class::Dropped
    } else if ends_with(infinitive, "ить"@) {
        if conjugation_of(infinitive) is Second {
            Class::Bare
        } else {
            Class::Listed
        }
    } else if ends_with(infinitive, "ти"@) || ends_with(infinitive, "чь"@) {
        Class::Consonantal
    } else if ends_with(infinitive, "ать"@) || ends_with(infinitive, "ять"@) || ends_with(
        infinitive,
        "еть"@,
    ) {
        if conjugation_of(infinitive) is Second {
            Class::Bare
        } else {
            Class::Glided
        }
    } else {
        Class::Listed
    }
}

/// Names the class a verb belongs to, given its infinitive.
pub fn of(infinitive: &str) -> (res: Class)
    ensures
        res == class_of(infinitive@),
{
    if listed(infinitive, &UNRULY) {
        return Class::Listed;
    }
    if listed(infinitive, &SWAPPING) {
        return Class::Swapped;
    }
    if ends_with_str(infinitive, "овать") || ends_with_str(infinitive, "евать") {
        return Class::Suffixed;
    }
    if ends_with_str(infinitive, "нуть") {
        return Class::Dropped;
    }
    if ends_with_str(infinitive, "ить") {
        return bare_or_listed(infinitive);
    }
    if ends_with_str(infinitive, "ти") || ends_with_str(infinitive, "чь") {
        return Class::Consonantal;
    }
    if ends_with_str(infinitive, "ать") || ends_with_str(infinitive, "ять") || ends_with_str(
        infinitive,
        "еть",
    ) {
        return second_or_glided(infinitive);
    }
    Class::Listed
}

/// The verbs in `-еть`, `-ать` and `-ять` that § 44 sends to the second
/// conjugation lose their vowel as a verb in `-ить` does, and conjugate bare.
fn second_or_glided(infinitive: &str) -> (res: Class)
    ensures
        res == (if conjugation_of(infinitive@) is Second {
            Class::Bare
        } else {
            Class::Glided
        }),
{
    match super::of(infinitive) {
        Conjugation::Second => Class::Bare,
        _ => Class::Glided,
    }
}

/// A verb in `-ить` that § 44 excepts from the second conjugation conjugates
/// on a stem no rule reaches, and is listed.
fn bare_or_listed(infinitive: &str) -> (res: Class)
    ensures
        res == (if conjugation_of(infinitive@) is Second {
            Class::Bare
        } else {
            Class::Listed
        }),
{
    match super::of(infinitive) {
        Conjugation::Second => Class::Bare,
        _ => Class::Listed,
    }
}

/// A prefix does not change the class a closed list gives a verb: a verb
/// listed whole stays listed under any prefix, and a verb that swaps its
/// consonant still swaps it — `писать`, `написать` — unless the prefixed
/// verb is itself listed whole.
pub proof fn a_prefix_keeps_a_listed_class(prefix: Seq<char>, verb: Seq<char>)
    requires
        among(prefix, PREFIXES@),
    ensures
        among(verb, UNRULY@) ==> class_of(prefix + verb) == Class::Listed,
        among(verb, SWAPPING@) && !listed_in(prefix + verb, UNRULY@) ==> class_of(prefix + verb)
            == Class::Swapped,
{
    if among(verb, UNRULY@) {
        a_prefix_keeps_a_verb_on_its_list(prefix, verb, UNRULY@);
    }
    if among(verb, SWAPPING@) {
        a_prefix_keeps_a_verb_on_its_list(prefix, verb, SWAPPING@);
    }
}

} // verus!
