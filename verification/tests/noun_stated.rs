use rusem::grammar::declension::index::{read, Index};
use rusem::grammar::declension::reading::{self, Cell};
use rusem::grammar::declension::stated::fleeting::{dropped, of as fleeting_of, Word};
use rusem::grammar::declension::stated::{self, ending, stem, yo};
use rusem::grammar::{Animacy, Case, Gender, Number};

fn stated_index(written: &str) -> Index {
    read(written).unwrap_or_else(|| unreachable!("a stated index"))
}

#[test]
fn the_last_e_of_the_stem_takes_the_diaeresis() {
    assert_eq!(yo::written("жен"), "жён");
    assert_eq!(yo::written("веретен"), "веретён");
}

#[test]
fn a_stem_already_showing_the_letter_is_left_alone() {
    assert_eq!(yo::written("мёд"), "мёд");
    assert_eq!(yo::written("ёж"), "ёж");
}

#[test]
fn a_stem_with_no_e_is_left_alone() {
    assert_eq!(yo::written("стол"), "стол");
}

#[test]
fn the_stems_yo_stands_off_the_stress_and_in_a_bare_form() {
    assert!(yo::stands(false, false, false));
    assert!(yo::stands(true, true, false));
    assert!(!yo::stands(true, true, true));
    assert!(!yo::stands(true, false, false));
}

#[test]
fn a_locative_query_is_answered_by_the_prepositional_cell() {
    let found = stated::reading::cells("коне", "конь", Gender::Masculine, Animacy::Animate, stated_index("2b"));
    assert!(found.contains(&Cell { case: Case::Locative.merged(), number: Number::Singular }));
    assert!(!found.iter().any(|cell| cell.case == Case::Locative));
}

fn cell(lemma: &str, gender: Gender, animacy: Animacy, index: &str, case: Case, number: Number) -> Option<String> {
    stated::written(lemma, gender, animacy, stated_index(index), case, number)
}

#[test]
fn a_stated_noun_is_written_out_by_its_index() {
    assert_eq!(
        cell("конь", Gender::Masculine, Animacy::Animate, "2b", Case::Instrumental, Number::Singular).as_deref(),
        Some("конём")
    );
    assert_eq!(
        cell("конь", Gender::Masculine, Animacy::Animate, "2b", Case::Accusative, Number::Singular).as_deref(),
        Some("коня")
    );
    assert_eq!(
        cell("стол", Gender::Masculine, Animacy::Inanimate, "1c", Case::Dative, Number::Plural).as_deref(),
        Some("столам")
    );
    assert_eq!(
        cell("отец", Gender::Masculine, Animacy::Animate, "5*b", Case::Genitive, Number::Singular).as_deref(),
        Some("отца")
    );
    assert_eq!(
        cell("окно", Gender::Neuter, Animacy::Inanimate, "1*d", Case::Genitive, Number::Plural).as_deref(),
        Some("окон")
    );
    assert_eq!(
        cell("армия", Gender::Feminine, Animacy::Inanimate, "7a", Case::Dative, Number::Singular).as_deref(),
        Some("армии")
    );
    assert_eq!(
        cell("ночь", Gender::Feminine, Animacy::Inanimate, "8e", Case::Instrumental, Number::Singular).as_deref(),
        Some("ночью")
    );
    assert_eq!(cell("", Gender::Feminine, Animacy::Inanimate, "1a", Case::Dative, Number::Singular), None);
    assert!(stated::opens("жена"));
    assert!(!stated::opens("стол"));
}

#[test]
fn a_fleeting_vowel_drops_under_the_masculines_endings() {
    assert_eq!(dropped("отец"), "отц");
    assert_eq!(dropped("палец"), "пальц");
    assert_eq!(dropped("боец"), "бойц");
    assert_eq!(dropped("стол"), "стл");
    assert_eq!(dropped("окно"), "окно");
    let word = Word { gender: Gender::Neuter, kind: rusem::grammar::declension::index::Kind::Hard, animacy: Animacy::Inanimate, opens: false };
    assert_eq!(fleeting_of("окн", word, Case::Genitive, Number::Plural, false), "окон");
    assert_eq!(fleeting_of("окн", word, Case::Dative, Number::Plural, false), "окн");
}

#[test]
fn the_stem_is_the_lemma_without_its_ending() {
    let hard = stated_index("1a");
    let soft = stated_index("2a");
    assert_eq!(stem::of("стол", Gender::Masculine, hard).as_deref(), Some("стол"));
    assert_eq!(stem::of("конь", Gender::Masculine, soft).as_deref(), Some("кон"));
    assert_eq!(stem::of("жена", Gender::Feminine, hard).as_deref(), Some("жен"));
    assert_eq!(stem::of("", Gender::Feminine, hard), None);
    assert!(ending::soft(rusem::grammar::declension::index::Kind::Iotated));
}

#[test]
fn a_noun_form_reads_back_into_its_cells() {
    let found = reading::cells("воде", "вода", Gender::Feminine, Animacy::Inanimate);
    assert_eq!(
        found,
        vec![
            Cell { case: Case::Dative, number: Number::Singular },
            Cell { case: Case::Prepositional, number: Number::Singular }
        ]
    );
    assert!(reading::cells("времён", "время", Gender::Neuter, Animacy::Inanimate)
        .contains(&Cell { case: Case::Genitive, number: Number::Plural }));
    assert!(reading::cells("стол", "пальто", Gender::Neuter, Animacy::Inanimate).is_empty());
}

#[test]
fn a_stated_form_reads_back_with_the_diaeresis_dropped() {
    let found = stated::reading::cells(
        "конем",
        "конь",
        Gender::Masculine,
        Animacy::Animate,
        stated_index("2b"),
    );
    assert!(found.contains(&Cell { case: Case::Instrumental, number: Number::Singular }));
}
