use rusem::grammar::declension::pronominal::endings::{masculine, of, Pattern};
use rusem::grammar::declension::pronominal::{cells, declining, entry, written, COUNT};
use rusem::grammar::stem::Stem;
use rusem::grammar::{Animacy, Case, Gender, Number};

fn row(pattern: Pattern, shape: Stem, gender: Gender, number: Number, stem: &str) -> Vec<String> {
    Case::STATED
        .iter()
        .map(|case| format!("{stem}{}", of(pattern, shape, gender, number, *case, Animacy::Inanimate)))
        .collect()
}

#[test]
fn the_older_hard_pattern_writes_the_paradigm_of_tot() {
    assert_eq!(
        row(Pattern::Older, Stem::Hard, Gender::Neuter, Number::Singular, "т"),
        vec!["то", "того", "тому", "то", "тем", "том"]
    );
    assert_eq!(
        row(Pattern::Older, Stem::Hard, Gender::Feminine, Number::Singular, "т"),
        vec!["та", "той", "той", "ту", "той", "той"]
    );
    assert_eq!(
        row(Pattern::Older, Stem::Hard, Gender::Masculine, Number::Plural, "т"),
        vec!["те", "тех", "тем", "те", "теми", "тех"]
    );
}

#[test]
fn the_older_soft_pattern_writes_the_paradigm_of_ves() {
    assert_eq!(
        row(Pattern::Older, Stem::Soft, Gender::Neuter, Number::Singular, "вс"),
        vec!["всё", "всего", "всему", "всё", "всем", "всём"]
    );
    assert_eq!(
        row(Pattern::Older, Stem::Soft, Gender::Feminine, Number::Singular, "вс"),
        vec!["вся", "всей", "всей", "всю", "всей", "всей"]
    );
    assert_eq!(
        row(Pattern::Older, Stem::Soft, Gender::Masculine, Number::Plural, "вс"),
        vec!["все", "всех", "всем", "все", "всеми", "всех"]
    );
}

#[test]
fn the_newer_hard_pattern_writes_the_paradigm_of_etot() {
    assert_eq!(
        row(Pattern::Newer, Stem::Hard, Gender::Neuter, Number::Singular, "эт"),
        vec!["это", "этого", "этому", "это", "этим", "этом"]
    );
    assert_eq!(
        row(Pattern::Newer, Stem::Hard, Gender::Masculine, Number::Plural, "эт"),
        vec!["эти", "этих", "этим", "эти", "этими", "этих"]
    );
}

#[test]
fn the_newer_soft_pattern_writes_the_paradigm_of_moy() {
    assert_eq!(
        row(Pattern::Newer, Stem::Soft, Gender::Neuter, Number::Singular, "мо"),
        vec!["моё", "моего", "моему", "моё", "моим", "моём"]
    );
    assert_eq!(
        row(Pattern::Newer, Stem::Soft, Gender::Feminine, Number::Singular, "мо"),
        vec!["моя", "моей", "моей", "мою", "моей", "моей"]
    );
    assert_eq!(
        row(Pattern::Newer, Stem::Soft, Gender::Masculine, Number::Plural, "мо"),
        vec!["мои", "моих", "моим", "мои", "моими", "моих"]
    );
}

#[test]
fn a_living_being_takes_the_genitive_for_its_accusative() {
    assert_eq!(
        of(Pattern::Older, Stem::Hard, Gender::Masculine, Number::Singular, Case::Accusative, Animacy::Animate),
        "ого"
    );
    assert_eq!(
        of(Pattern::Older, Stem::Hard, Gender::Masculine, Number::Plural, Case::Accusative, Animacy::Animate),
        "ех"
    );
}

#[test]
fn a_thing_repeats_the_nominative_and_the_masculine_singular_has_none() {
    assert_eq!(
        of(Pattern::Older, Stem::Hard, Gender::Masculine, Number::Singular, Case::Accusative, Animacy::Inanimate),
        ""
    );
}

#[test]
fn the_pattern_decides_the_instrumental_and_the_stem_does_not() {
    for shape in [Stem::Hard, Stem::Soft] {
        assert_eq!(masculine(Pattern::Older, shape).instrumental, "ем");
        assert_eq!(masculine(Pattern::Newer, shape).instrumental, "им");
    }
}

#[test]
fn the_stem_decides_the_genitive_and_the_pattern_does_not() {
    for pattern in [Pattern::Older, Pattern::Newer] {
        assert_eq!(masculine(pattern, Stem::Hard).genitive, "ого");
        assert_eq!(masculine(pattern, Stem::Soft).genitive, "его");
    }
}

#[test]
fn every_pronoun_that_declines_this_way_names_its_stem() {
    for i in 0..COUNT {
        let held = entry(i);
        assert_eq!(declining(held.dictionary).map(|found| found.stem), Some(held.stem));
    }
}

#[test]
fn a_word_that_declines_another_way_is_not_here() {
    assert!(declining("стол").is_none());
    assert!(declining("красный").is_none());
    assert!(declining("").is_none());
}

#[test]
fn the_instrumental_an_adjective_could_not_write_is_written() {
    for (dictionary, form) in [
        ("тот", "тем"),
        ("этот", "этим"),
        ("весь", "всем"),
        ("мой", "моим"),
        ("чей", "чьим"),
        ("кто", "кем"),
        ("что", "чем"),
        ("сам", "самим"),
    ] {
        assert_eq!(
            written(dictionary, Gender::Masculine, Number::Singular, Case::Instrumental, Animacy::Inanimate)
                .as_deref(),
            Some(form),
            "{dictionary}"
        );
    }
}

#[test]
fn a_sibilant_stem_writes_e_where_the_stress_does_not_fall() {
    assert_eq!(
        written("наш", Gender::Masculine, Number::Singular, Case::Prepositional, Animacy::Inanimate).as_deref(),
        Some("нашем")
    );
    assert_eq!(
        written("ваш", Gender::Neuter, Number::Singular, Case::Nominative, Animacy::Inanimate).as_deref(),
        Some("ваше")
    );
}

#[test]
fn the_prepositional_of_a_soft_stem_keeps_its_soft_vowel() {
    assert_eq!(
        written("весь", Gender::Masculine, Number::Singular, Case::Prepositional, Animacy::Inanimate).as_deref(),
        Some("всём")
    );
    assert_eq!(
        written("что", Gender::Masculine, Number::Singular, Case::Prepositional, Animacy::Inanimate).as_deref(),
        Some("чём")
    );
}

#[test]
fn one_declines_as_a_pronoun_and_not_as_a_numeral() {
    assert_eq!(
        written("один", Gender::Masculine, Number::Singular, Case::Genitive, Animacy::Inanimate).as_deref(),
        Some("одного")
    );
    assert_eq!(
        written("одна", Gender::Feminine, Number::Singular, Case::Accusative, Animacy::Inanimate).as_deref(),
        Some("одну")
    );
}

#[test]
fn the_nominative_masculine_is_the_dictionary_form_itself() {
    for i in 0..COUNT {
        let held = entry(i);
        assert_eq!(
            written(held.dictionary, Gender::Masculine, Number::Singular, Case::Nominative, Animacy::Inanimate)
                .as_deref(),
            Some(held.dictionary),
            "{}",
            held.dictionary
        );
    }
}

#[test]
fn pronominal_a_written_form_is_read_back_to_the_case_that_wrote_it() {
    for (word, dictionary, case) in [
        ("тем", "тот", Case::Instrumental),
        ("того", "тот", Case::Genitive),
        ("тому", "тот", Case::Dative),
        ("том", "тот", Case::Prepositional),
        ("чем", "что", Case::Instrumental),
        ("чём", "что", Case::Prepositional),
        ("всём", "весь", Case::Prepositional),
        ("моими", "мой", Case::Instrumental),
    ] {
        let found = cells(word, dictionary, Animacy::Inanimate);
        assert!(found.iter().any(|cell| cell.case == case), "{word} from {dictionary} is no {case:?}: {found:?}");
    }
}

#[test]
fn the_plural_states_no_gender_and_the_singular_states_one() {
    let plural = cells("теми", "тот", Animacy::Inanimate);
    let singular = cells("тому", "тот", Animacy::Inanimate);
    assert!(plural.iter().all(|cell| cell.gender.is_none()));
    assert!(singular.iter().all(|cell| cell.gender.is_some()));
}

#[test]
fn a_form_of_another_word_is_read_back_to_nothing() {
    assert!(cells("стола", "тот", Animacy::Inanimate).is_empty());
    assert!(cells("тем", "стол", Animacy::Inanimate).is_empty());
    assert!(cells("", "тот", Animacy::Inanimate).is_empty());
}

#[test]
fn every_cell_of_every_pronoun_is_read_back_to_itself() {
    for i in 0..COUNT {
        let held = entry(i);
        for number in [Number::Singular, Number::Plural] {
            for gender in Gender::STATED {
                for case in Case::STATED {
                    let word = written(held.dictionary, gender, number, case, Animacy::Inanimate)
                        .expect("a pronoun that declines writes every cell");
                    let found = cells(&word, held.dictionary, Animacy::Inanimate);
                    assert!(!found.is_empty(), "{word} is written and not read back");
                }
            }
        }
    }
}

#[test]
fn a_living_being_is_pointed_at_in_the_genitive() {
    assert_eq!(
        written("тот", Gender::Masculine, Number::Singular, Case::Accusative, Animacy::Animate).as_deref(),
        Some("того")
    );
    assert_eq!(
        written("тот", Gender::Masculine, Number::Singular, Case::Accusative, Animacy::Inanimate).as_deref(),
        Some("т")
    );
}

#[test]
fn pronominal_the_case_a_word_is_written_in_does_not_matter() {
    assert_eq!(declining("ТОТ").map(|held| held.stem), Some("т"));
    assert!(!cells("ТЕМ", "тот", Animacy::Inanimate).is_empty());
}
