use rusem::grammar::declension::index::circled::Reach;
use rusem::grammar::declension::index::falls::{on, Falls};
use rusem::grammar::declension::index::marks::{self, Tail};
use rusem::grammar::declension::index::{read, Accent, Index, Kind};
use rusem::grammar::declension::noun::{ending, stem, written};
use rusem::grammar::declension::{self, Declension};
use rusem::grammar::stem::Stem;
use rusem::grammar::{Animacy, Case, Gender, Number};

fn stated(written: &str) -> Index {
    read(written).unwrap_or_else(|| unreachable!("a stated index"))
}

#[test]
fn the_yo_mark_is_a_typed_fact_and_not_a_note() {
    let held = stated("4b, ё");
    assert!(held.yo);
    assert!(!held.noted);
    assert_eq!(held.kind, Kind::Sibilant);
    assert_eq!(held.accent, Accent::B);
}

#[test]
fn the_star_and_the_yo_mark_stand_together() {
    let held = stated("1*d, ё");
    assert!(held.fleeting);
    assert!(held.yo);
    assert!(!held.noted);
}

#[test]
fn a_circled_numeral_is_a_typed_fact_and_not_a_note() {
    let held = stated("1c(1)");
    assert_eq!(held.circled.nominative, Some(Reach::Whole));
    assert!(!held.noted);
    let both = stated("1c(1)(2)");
    assert_eq!(both.circled.nominative, Some(Reach::Whole));
    assert_eq!(both.circled.genitive, Some(Reach::Whole));
    assert_eq!(stated("7a(3)").circled.prepositional, Some(Reach::Whole));
    assert_eq!(stated("1a((2))").circled.genitive, Some(Reach::Either));
}

#[test]
fn the_doubled_prime_is_read_in_both_spellings() {
    assert_eq!(stated("8f\"").accent, Accent::FDouble);
    assert_eq!(stated("8f''").accent, Accent::FDouble);
    assert!(!stated("8f\"").noted);
}

#[test]
fn a_mark_without_a_rule_stays_noted() {
    assert!(stated("1°a").noted);
    assert!(stated("1a−").noted);
    assert!(stated("1b-").noted);
    assert!(stated("1a÷").noted);
    assert!(stated("1a^").noted);
    assert!(stated("1a− + 3*b").noted);
    assert!(stated("1*b // 1a").noted);
}

#[test]
fn a_noted_mark_keeps_the_understood_ones_beside_it() {
    let held = stated("3d(1)−");
    assert_eq!(held.circled.nominative, Some(Reach::Whole));
    assert!(held.noted);
    let grown = stated("8°c, ё");
    assert!(grown.yo);
    assert!(grown.noted);
}

#[test]
fn an_index_without_a_kind_or_a_letter_is_refused() {
    assert_eq!(read(""), None);
    assert_eq!(read("9a"), None);
    assert_eq!(read("1"), None);
    assert_eq!(read("1g"), None);
    assert_eq!(stated("2b'").accent, Accent::BPrime);
    assert_eq!(stated("6d'").accent, Accent::DPrime);
    assert_eq!(stated("8f'").accent, Accent::FPrime);
    assert_eq!(Kind::of(Kind::Iotated.digit()), Some(Kind::Iotated));
}

fn tail(written: &str) -> Tail {
    marks::read(written, 0)
}

#[test]
fn a_circled_numeral_is_read_into_its_cell() {
    assert_eq!(tail("(1)").circled.nominative, Some(Reach::Whole));
    assert_eq!(tail("(2)").circled.genitive, Some(Reach::Whole));
    assert_eq!(tail("(3)").circled.prepositional, Some(Reach::Whole));
    assert!(!tail("(1)").noted);
}

#[test]
fn two_numerals_are_two_facts() {
    let held = tail("(1)(2)");
    assert_eq!(held.circled.nominative, Some(Reach::Whole));
    assert_eq!(held.circled.genitive, Some(Reach::Whole));
    assert!(!held.noted);
}

#[test]
fn marks_a_doubled_numeral_reaches_either_form() {
    assert_eq!(tail("((1))").circled.nominative, Some(Reach::Either));
    assert_eq!(tail("((2))").circled.genitive, Some(Reach::Either));
    assert!(!tail("((2))").noted);
}

#[test]
fn hypothetical_form_marks_stay_noted() {
    assert!(tail("−").noted);
    assert!(tail("-").noted);
    assert!(tail("÷").noted);
    assert!(tail("^").noted);
}

#[test]
fn a_noted_mark_does_not_hide_the_yo_after_it() {
    let held = tail("÷, ё");
    assert!(held.noted);
    assert!(held.yo);
}

#[test]
fn a_compound_tail_is_noted_whole() {
    assert!(tail(" + 3*b").noted);
    assert!(tail(" // 1a").noted);
}

#[test]
fn a_numeral_the_source_does_not_state_is_noted() {
    assert!(tail("(4)").noted);
    assert!(tail("((3))").noted);
    assert!(tail("(1").noted);
}

#[test]
fn the_stress_falls_where_the_accent_letter_says() {
    assert_eq!(on(Accent::A, Case::Genitive, Number::Plural), Falls::Stem);
    assert_eq!(on(Accent::B, Case::Nominative, Number::Singular), Falls::Ending);
    assert_eq!(on(Accent::C, Case::Dative, Number::Plural), Falls::Ending);
    assert_eq!(on(Accent::C, Case::Dative, Number::Singular), Falls::Stem);
    assert_eq!(on(Accent::DPrime, Case::Accusative, Number::Singular), Falls::Stem);
    assert_eq!(on(Accent::E, Case::Nominative, Number::Plural), Falls::Stem);
    assert_eq!(on(Accent::E, Case::Dative, Number::Plural), Falls::Ending);
    assert_eq!(on(Accent::FDouble, Case::Instrumental, Number::Singular), Falls::Stem);
    assert_eq!(on(Accent::BPrime, Case::Partitive, Number::Singular), Falls::Ending);
}

#[test]
fn the_paradigm_is_read_off_the_nominative_and_the_gender() {
    assert_eq!(declension::of("вода", Gender::Feminine), Declension::First);
    assert_eq!(declension::of("ночь", Gender::Feminine), Declension::Third);
    assert_eq!(declension::of("стол", Gender::Masculine), Declension::Second);
    assert_eq!(declension::of("окно", Gender::Neuter), Declension::Second);
    assert_eq!(declension::of("время", Gender::Neuter), Declension::Mixed);
    assert_eq!(declension::of("пирожное", Gender::Neuter), Declension::Adjectival);
    assert_eq!(declension::of("столовая", Gender::Feminine), Declension::First);
    assert_eq!(declension::of("пальто", Gender::Feminine), Declension::Indeclinable);
    assert_eq!(declension::stem("земля"), Stem::Soft);
    assert_eq!(declension::stem("вода"), Stem::Hard);
    assert!(declension::on_glide("армия"));
    assert!(!declension::on_glide("ия"));
}

fn one(nominative: &str, gender: Gender, case: Case) -> Option<String> {
    written(nominative, gender, Animacy::Inanimate, case, Number::Singular)
}

#[test]
fn a_stem_on_the_glide_takes_i_where_the_table_says_e() {
    assert_eq!(one("армия", Gender::Feminine, Case::Prepositional).as_deref(), Some("армии"));
    assert_eq!(one("армия", Gender::Feminine, Case::Dative).as_deref(), Some("армии"));
    assert_eq!(one("собрание", Gender::Neuter, Case::Prepositional).as_deref(), Some("собрании"));
    assert_eq!(
        ending("армия", Gender::Feminine, Animacy::Inanimate, Case::Prepositional, Number::Singular),
        Some("и")
    );
    assert_eq!(
        ending("вода", Gender::Feminine, Animacy::Inanimate, Case::Prepositional, Number::Singular),
        Some("е")
    );
}

#[test]
fn an_ordinary_stem_keeps_the_e() {
    assert_eq!(one("вода", Gender::Feminine, Case::Prepositional).as_deref(), Some("воде"));
    assert_eq!(one("стол", Gender::Masculine, Case::Prepositional).as_deref(), Some("столе"));
}

#[test]
fn a_mixed_noun_grows_before_its_endings() {
    assert_eq!(one("время", Gender::Neuter, Case::Genitive).as_deref(), Some("времени"));
    assert_eq!(one("время", Gender::Neuter, Case::Instrumental).as_deref(), Some("временем"));
    assert_eq!(one("имя", Gender::Neuter, Case::Dative).as_deref(), Some("имени"));
    assert_eq!(
        stem("время", Gender::Neuter, Animacy::Inanimate, Case::Genitive, Number::Singular).as_deref(),
        Some("времен")
    );
}

#[test]
fn a_mixed_noun_does_not_grow_in_the_nominative() {
    assert_eq!(one("время", Gender::Neuter, Case::Nominative).as_deref(), Some("время"));
}

#[test]
fn a_sibilant_refuses_the_vowel_the_table_would_put() {
    assert_eq!(one("книга", Gender::Feminine, Case::Genitive).as_deref(), Some("книги"));
    assert_eq!(one("душа", Gender::Feminine, Case::Genitive).as_deref(), Some("души"));
}

#[test]
fn an_indeclinable_noun_takes_no_ending() {
    assert_eq!(one("пальто", Gender::Feminine, Case::Genitive), None);
}

fn many(nominative: &str, gender: Gender, case: Case) -> Option<String> {
    written(nominative, gender, Animacy::Inanimate, case, Number::Plural)
}

#[test]
fn a_mixed_noun_grows_through_the_whole_plural() {
    assert_eq!(many("время", Gender::Neuter, Case::Nominative).as_deref(), Some("времена"));
    assert_eq!(many("время", Gender::Neuter, Case::Accusative).as_deref(), Some("времена"));
    assert_eq!(many("имя", Gender::Neuter, Case::Nominative).as_deref(), Some("имена"));
}

#[test]
fn the_plural_obliques_of_a_mixed_noun_are_hard() {
    assert_eq!(many("время", Gender::Neuter, Case::Dative).as_deref(), Some("временам"));
    assert_eq!(many("время", Gender::Neuter, Case::Instrumental).as_deref(), Some("временами"));
    assert_eq!(many("время", Gender::Neuter, Case::Prepositional).as_deref(), Some("временах"));
}

#[test]
fn the_two_sown_nouns_write_their_genitive_plural_with_ya() {
    assert_eq!(many("семя", Gender::Neuter, Case::Genitive).as_deref(), Some("семян"));
    assert_eq!(many("стремя", Gender::Neuter, Case::Genitive).as_deref(), Some("стремян"));
    assert_eq!(many("время", Gender::Neuter, Case::Genitive).as_deref(), Some("времён"));
}

#[test]
fn the_way_declines_by_the_third_declension_with_its_own_instrumental() {
    assert_eq!(one("путь", Gender::Masculine, Case::Nominative).as_deref(), Some("путь"));
    assert_eq!(one("путь", Gender::Masculine, Case::Genitive).as_deref(), Some("пути"));
    assert_eq!(one("путь", Gender::Masculine, Case::Instrumental).as_deref(), Some("путём"));
    assert_eq!(many("путь", Gender::Masculine, Case::Nominative).as_deref(), Some("пути"));
    assert_eq!(many("путь", Gender::Masculine, Case::Genitive).as_deref(), Some("путей"));
    assert_eq!(many("путь", Gender::Masculine, Case::Dative).as_deref(), Some("путям"));
}

#[test]
fn an_animate_noun_repeats_its_genitive_in_the_accusative() {
    assert_eq!(
        written("кот", Gender::Masculine, Animacy::Animate, Case::Accusative, Number::Singular).as_deref(),
        Some("кота")
    );
    assert_eq!(
        written("стол", Gender::Masculine, Animacy::Inanimate, Case::Accusative, Number::Singular)
            .as_deref(),
        Some("стол")
    );
}

#[test]
fn the_yo_mark_is_read_off_its_comma() {
    let held = tail(", ё");
    assert!(held.yo);
    assert!(!held.noted);
}
