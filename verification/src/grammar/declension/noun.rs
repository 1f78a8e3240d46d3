//! The ending a noun takes, with everything the bare table does not know.
//!
//! Three facts about the written word bend the table: a stem on the glide
//! takes `и` where the table says `е` — `в армии`, `о собрании`, § 33; the
//! nouns in `-мя` grow `-ен-` where their paradigm asks for it; and a
//! sibilant refuses the vowels the table would put after it. And `путь`,
//! mixed as it is, declines by the third declension with an instrumental of
//! its own: `путём`.

use vstd::prelude::*;

use super::endings::{self, plural_of, table_of, Endings};
use super::spelling::{fitted, fitted_of};
use super::{closes_on, declension_of, on_glide, stem_of, Declension, GROWTH, ON_GLIDE};
use crate::grammar::case::Case;
use crate::grammar::gender::{Animacy, Gender};
use crate::grammar::number::Number;
use crate::grammar::stem::Stem;
use crate::text::{among, drop_last, ends_with, ends_with_str, eq_str, is_among, joined, owned, seen};

verus! {

/// The two mixed nouns whose genitive plural growth is written with `я`:
/// `семян`, `стремян` against `времён`.
pub const GROWN_WITH_YA: [&'static str; 2] = ["семя", "стремя"];

/// The mixed noun without `-мя`.
pub const WAY: [&'static str; 1] = ["путь"];

/// The cells a stem on the glide softens: the prepositional always, the
/// dative and the genitive of the first declension too.
#[verifier::allow_in_spec]
pub fn softened(case: Case, pattern: Declension) -> bool
    returns
        case is Prepositional || case is Locative || ((case is Dative || case is Genitive)
            && pattern is First),
{
    match case {
        Case::Prepositional | Case::Locative => true,
        Case::Dative | Case::Genitive => matches!(pattern, Declension::First),
        _ => false,
    }
}

/// The rows `путь` declines by: the third declension's, with `-ём` in the
/// instrumental.
pub open spec fn way_of(number: Number) -> Endings {
    if number is Singular {
        Endings {
            nominative: "ь",
            genitive: "и",
            dative: "и",
            accusative: Some("ь"),
            instrumental: "ём",
            prepositional: "и",
        }
    } else {
        plural_of(Stem::Soft, "ей", "и")
    }
}

/// The rows a noun declines by.
pub open spec fn rows_of(nominative: Seq<char>, gender: Gender, number: Number) -> Option<Endings> {
    if among(nominative, WAY@) {
        Some(way_of(number))
    } else {
        table_of(declension_of(nominative, gender), stem_of(nominative), gender, number)
    }
}

/// The ending a noun takes in a cell.
pub open spec fn ending_of(
    nominative: Seq<char>,
    gender: Gender,
    animacy: Animacy,
    case: Case,
    number: Number,
) -> Option<&'static str> {
    match rows_of(nominative, gender, number) {
        None => None,
        Some(table) => {
            let held = table.of(case, animacy);
            if number is Singular && closes_on(nominative, ON_GLIDE@) && softened(
                case,
                declension_of(nominative, gender),
            ) {
                Some("и")
            } else if held@ == "ён"@ && among(nominative, GROWN_WITH_YA@) {
                Some("ян")
            } else {
                Some(held)
            }
        },
    }
}

/// The rows `путь` declines by.
fn way(number: Number) -> (res: Endings)
    ensures
        res == way_of(number),
{
    match number {
        Number::Singular => Endings {
            nominative: "ь",
            genitive: "и",
            dative: "и",
            accusative: Some("ь"),
            instrumental: "ём",
            prepositional: "и",
        },
        Number::Plural => Endings {
            nominative: "и",
            genitive: "ей",
            dative: "ям",
            accusative: None,
            instrumental: "ями",
            prepositional: "ях",
        },
    }
}

/// The ending a noun takes in the cell asked for. An indeclinable noun takes
/// none, and the answer is absent rather than empty: `пальто` has no ending.
pub fn ending(nominative: &str, gender: Gender, animacy: Animacy, case: Case, number: Number) -> (res:
    Option<&'static str>)
    ensures
        res == ending_of(nominative@, gender, animacy, case, number),
{
    let pattern = super::of(nominative, gender);
    let table = if is_among(nominative, &WAY) {
        way(number)
    } else {
        match endings::table(pattern, super::stem(nominative), gender, number) {
            Some(table) => table,
            None => return None,
        }
    };
    let held = table.of(case, animacy);
    if matches!(number, Number::Singular) && on_glide(nominative) && softened(case, pattern) {
        return Some("и");
    }
    if eq_str(held, "ён") && is_among(nominative, &GROWN_WITH_YA) {
        return Some("ян");
    }
    Some(held)
}

/// Whether a cell grows the stem of a noun in `-мя`: every cell of the
/// singular but the nominative and the accusative, every cell of the plural
/// but the genitive, and the accusative plural where it repeats the
/// nominative.
#[verifier::allow_in_spec]
pub fn grows(case: Case, number: Number, animacy: Animacy) -> bool
    returns
        match number {
            Number::Singular => !(case.merged() is Nominative || case.merged() is Vocative
                || case.merged() is Accusative),
            Number::Plural => if case.merged() is Genitive {
                false
            } else if case.merged() is Accusative {
                animacy is Inanimate
            } else {
                true
            },
        },
{
    match number {
        Number::Singular => match case.merged() {
            Case::Nominative | Case::Vocative | Case::Accusative => false,
            _ => true,
        },
        Number::Plural => match case.merged() {
            Case::Genitive => false,
            Case::Accusative => matches!(animacy, Animacy::Inanimate),
            _ => true,
        },
    }
}

/// A noun's nominative without its ending.
pub open spec fn bare_stem_of(nominative: Seq<char>, pattern: Declension) -> Option<Seq<char>> {
    if pattern is Indeclinable || nominative.len() == 0 {
        None
    } else {
        let last = nominative.last();
        if last == 'а' || last == 'я' || last == 'о' || last == 'е' || last == 'ё' || last == 'ь'
            || last == 'й' {
            Some(nominative.drop_last())
        } else {
            Some(nominative)
        }
    }
}

/// The stem a noun's endings are added to in a cell.
pub open spec fn noun_stem_of(
    nominative: Seq<char>,
    gender: Gender,
    animacy: Animacy,
    case: Case,
    number: Number,
) -> Option<Seq<char>> {
    let pattern = declension_of(nominative, gender);
    match bare_stem_of(nominative, pattern) {
        None => None,
        Some(bare) => if pattern is Mixed && ends_with(nominative, "мя"@) && grows(
            case,
            number,
            animacy,
        ) {
            Some(bare + GROWTH@)
        } else {
            Some(bare)
        },
    }
}

/// The stem a noun's endings are added to: a noun in `-мя` grows `-ен-`
/// where its paradigm asks for it — `времен-и`, `времен-ем`; `путь` grows
/// nothing.
pub fn stem(nominative: &str, gender: Gender, animacy: Animacy, case: Case, number: Number) -> (res:
    Option<String>)
    ensures
        seen(res) == noun_stem_of(nominative@, gender, animacy, case, number),
{
    let pattern = super::of(nominative, gender);
    let bare = match bare_stem(nominative, pattern) {
        Some(bare) => bare,
        None => return None,
    };
    if !matches!(pattern, Declension::Mixed) || !ends_with_str(nominative, "мя") || !grows(
        case,
        number,
        animacy,
    ) {
        return Some(bare);
    }
    Some(joined(bare.as_str(), GROWTH))
}

/// A noun's nominative without its ending.
fn bare_stem(nominative: &str, pattern: Declension) -> (res: Option<String>)
    ensures
        seen(res) == bare_stem_of(nominative@, pattern),
{
    if matches!(pattern, Declension::Indeclinable) {
        return None;
    }
    let n = nominative.unicode_len();
    if n == 0 {
        return None;
    }
    let last = nominative.get_char(n - 1);
    if last == 'а' || last == 'я' || last == 'о' || last == 'е' || last == 'ё' || last == 'ь' || last
        == 'й' {
        return Some(owned(drop_last(nominative)));
    }
    Some(owned(nominative))
}

/// A noun written in a cell.
pub open spec fn written_of(
    nominative: Seq<char>,
    gender: Gender,
    animacy: Animacy,
    case: Case,
    number: Number,
) -> Option<Seq<char>> {
    match noun_stem_of(nominative, gender, animacy, case, number) {
        None => None,
        Some(base) => match ending_of(nominative, gender, animacy, case, number) {
            None => None,
            Some(held) => Some(base + fitted_of(base, held@, false)),
        },
    }
}

/// Writes a noun in the cell asked for: its stem, and its ending as the stem
/// lets it be spelled. `вода` — `воде`, `армия` — `армии`, `время` —
/// `времени`, `книга` — `книги`.
pub fn written(nominative: &str, gender: Gender, animacy: Animacy, case: Case, number: Number) -> (res:
    Option<String>)
    ensures
        seen(res) == written_of(nominative@, gender, animacy, case, number),
{
    let base = match stem(nominative, gender, animacy, case, number) {
        Some(base) => base,
        None => return None,
    };
    let held = match ending(nominative, gender, animacy, case, number) {
        Some(held) => held,
        None => return None,
    };
    let spelled = fitted(base.as_str(), held, false);
    Some(joined(base.as_str(), spelled.as_str()))
}

/// Only a noun in `-мя` changes its stem from cell to cell: any other noun
/// adds every ending to its nominative without the ending, and an
/// indeclinable noun has no stem to add one to.
pub proof fn the_stem_stays_but_in_the_mixed_nouns(
    nominative: Seq<char>,
    gender: Gender,
    animacy: Animacy,
    case: Case,
    number: Number,
)
    ensures
        !(declension_of(nominative, gender) is Mixed) ==> noun_stem_of(
            nominative,
            gender,
            animacy,
            case,
            number,
        ) == bare_stem_of(nominative, declension_of(nominative, gender)),
        declension_of(nominative, gender) is Indeclinable ==> noun_stem_of(
            nominative,
            gender,
            animacy,
            case,
            number,
        ) is None,
{
}

/// A noun of the third declension says `-и` after its stem in the genitive,
/// the dative and the prepositional singular alike: `ночи`, `ночи`, `о ночи`.
pub proof fn a_third_declension_noun_says_i_thrice(nominative: Seq<char>, gender: Gender, animacy: Animacy, case: Case)
    requires
        declension_of(nominative, gender) is Third,
        case is Genitive || case is Dative || case is Prepositional,
    ensures
        written_of(nominative, gender, animacy, case, Number::Singular) == Some(
            nominative.drop_last() + "и"@,
        ),
{
    reveal_strlit("и");
    reveal_strlit("путь");
    endings::the_third_declension_says_i_thrice(stem_of(nominative), gender);
    assert(WAY@[0]@ == "путь"@);
    assert(super::MIXED@[10]@ == "путь"@);
    if among(nominative, WAY@) {
        assert(nominative == "путь"@);
        assert(among(nominative, super::MIXED@));
    }
    assert(fitted_of(nominative.drop_last(), "и"@, false) =~= "и"@);
}

} // verus!
