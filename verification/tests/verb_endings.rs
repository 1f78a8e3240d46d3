use rusem::grammar::conjugation::class::{of, Class};
use rusem::grammar::conjugation::endings::{table, Endings};
use rusem::grammar::conjugation::imperative::{self, Ending};
use rusem::grammar::conjugation::{of as conjugation_of, past, reflexive, Conjugation};
use rusem::grammar::stem::Stem;
use rusem::grammar::{Gender, Number, Person};

#[test]
fn the_five_productive_classes_are_found_by_the_ending() {
    assert_eq!(of("читать"), Class::Glided);
    assert_eq!(of("уметь"), Class::Glided);
    assert_eq!(of("рисовать"), Class::Suffixed);
    assert_eq!(of("воевать"), Class::Suffixed);
    assert_eq!(of("крикнуть"), Class::Dropped);
    assert_eq!(of("любить"), Class::Bare);
}

#[test]
fn a_swapping_verb_is_named_rather_than_derived() {
    assert_eq!(of("писать"), Class::Swapped);
    assert_eq!(of("искать"), Class::Swapped);
    assert_eq!(of("читать"), Class::Glided);
}

#[test]
fn a_consonant_stem_is_found_by_its_infinitive() {
    assert_eq!(of("нести"), Class::Consonantal);
    assert_eq!(of("везти"), Class::Consonantal);
    assert_eq!(of("печь"), Class::Consonantal);
}

#[test]
fn the_verbs_of_paragraph_forty_four_conjugate_bare() {
    assert_eq!(of("смотреть"), Class::Bare);
    assert_eq!(of("держать"), Class::Bare);
    assert_eq!(of("слышать"), Class::Bare);
    assert_eq!(of("спать"), Class::Bare);
    assert_eq!(of("ненавидеть"), Class::Bare);
}

#[test]
fn a_verb_the_paragraph_excepts_from_it_is_listed() {
    assert_eq!(of("брить"), Class::Listed);
    assert_eq!(of("побрить"), Class::Listed);
    assert_eq!(of("стелить"), Class::Listed);
    assert_eq!(of("почить"), Class::Listed);
}

#[test]
fn a_verb_that_stresses_its_endings_is_listed() {
    assert_eq!(of("гнать"), Class::Listed);
    assert_eq!(of("стоять"), Class::Listed);
    assert_eq!(of("сидеть"), Class::Listed);
    assert_eq!(of("кричать"), Class::Listed);
    assert_eq!(of("гореть"), Class::Listed);
}

#[test]
fn a_verb_the_dictionary_states_with_aju_keeps_its_glide() {
    assert_eq!(of("страдать"), Class::Glided);
    assert_eq!(of("капать"), Class::Glided);
    assert_eq!(of("блистать"), Class::Glided);
}

#[test]
fn a_prefix_does_not_change_a_class() {
    assert_eq!(of("написать"), Class::Swapped);
    assert_eq!(of("прочитать"), Class::Glided);
    assert_eq!(of("посмотреть"), Class::Bare);
    assert_eq!(of("принести"), Class::Consonantal);
}

#[test]
fn a_verb_no_rule_reaches_is_listed() {
    assert_eq!(of("тереть"), Class::Listed);
    assert_eq!(of("мыть"), Class::Listed);
    assert_eq!(of("давать"), Class::Listed);
    assert_eq!(of("съесть"), Class::Listed);
}

#[test]
fn every_class_but_the_listed_one_names_its_endings() {
    assert_eq!(Class::Glided.conjugation(), Some(Conjugation::First));
    assert_eq!(Class::Bare.conjugation(), Some(Conjugation::Second));
    assert_eq!(Class::Listed.conjugation(), None);
}

#[test]
fn the_closed_classes_are_named_as_closed() {
    assert!(Class::Glided.is_productive());
    assert!(!Class::Swapped.is_productive());
    assert!(!Class::Listed.is_productive());
    assert!(Class::Consonantal.is_productive());
    assert!(Class::Bare.is_productive());
}

#[test]
fn the_conjugation_of_a_verb_is_read_off_its_infinitive() {
    assert_eq!(conjugation_of("говорить"), Conjugation::Second);
    assert_eq!(conjugation_of("брить"), Conjugation::First);
    assert_eq!(conjugation_of("увидеть"), Conjugation::Second);
    assert_eq!(conjugation_of("читать"), Conjugation::First);
    assert_eq!(conjugation_of("захотеть"), Conjugation::Mixed);
    assert_eq!(conjugation_of("передать"), Conjugation::Irregular);
}

fn table_of(conjugation: Conjugation, stem: Stem, stressed: bool) -> Endings {
    table(conjugation, stem, stressed).expect("a table")
}

#[test]
fn the_first_conjugation_writes_e_when_the_ending_is_unstressed() {
    let held = table_of(Conjugation::First, Stem::Hard, false);
    assert_eq!(held.of(Person::Second, Number::Singular), "ешь");
    assert_eq!(held.of(Person::First, Number::Plural), "ем");
}

#[test]
fn the_first_conjugation_writes_jo_when_the_ending_is_stressed() {
    let held = table_of(Conjugation::First, Stem::Hard, true);
    assert_eq!(held.of(Person::Second, Number::Singular), "ёшь");
    assert_eq!(held.of(Person::Third, Number::Singular), "ёт");
}

#[test]
fn the_stem_bends_the_first_person_and_the_third_plural() {
    let hard = table_of(Conjugation::First, Stem::Hard, false);
    let soft = table_of(Conjugation::First, Stem::Soft, false);
    assert_eq!(hard.of(Person::First, Number::Singular), "у");
    assert_eq!(soft.of(Person::First, Number::Singular), "ю");
    assert_eq!(hard.of(Person::Third, Number::Plural), "ут");
    assert_eq!(soft.of(Person::Third, Number::Plural), "ют");
}

#[test]
fn the_second_conjugation_is_not_bent_by_the_stress() {
    let quiet = table_of(Conjugation::Second, Stem::Soft, false);
    let loud = table_of(Conjugation::Second, Stem::Soft, true);
    assert_eq!(quiet, loud);
    assert_eq!(quiet.of(Person::Third, Number::Plural), "ят");
}

#[test]
fn a_verb_outside_both_sets_has_no_table() {
    assert!(table(Conjugation::Irregular, Stem::Hard, false).is_none());
}

#[test]
fn the_mixed_table_takes_the_first_singular_and_the_second_plural() {
    let held = table_of(Conjugation::Mixed, Stem::Hard, false);
    assert_eq!(held.of(Person::Second, Number::Singular), "ешь");
    assert_eq!(held.of(Person::First, Number::Plural), "им");
    assert_eq!(held.of(Person::Third, Number::Plural), "ят");
}

#[test]
fn a_stem_in_a_vowel_takes_the_l() {
    let held = past::table("чита");
    assert_eq!(held.of(Gender::Masculine, Number::Singular), "л");
    assert_eq!(held.of(Gender::Feminine, Number::Singular), "ла");
    assert_eq!(held.of(Gender::Neuter, Number::Singular), "ло");
    assert_eq!(held.of(Gender::Masculine, Number::Plural), "ли");
}

#[test]
fn a_stem_in_a_consonant_drops_it_in_the_masculine_alone() {
    let held = past::table("нёс");
    assert_eq!(held.of(Gender::Masculine, Number::Singular), "");
    assert_eq!(held.of(Gender::Feminine, Number::Singular), "ла");
    assert_eq!(held.of(Gender::Neuter, Number::Singular), "ло");
    assert_eq!(held.of(Gender::Masculine, Number::Plural), "ли");
}

#[test]
fn the_plural_states_no_gender() {
    let held = past::table("чита");
    assert_eq!(held.of(Gender::Feminine, Number::Plural), held.of(Gender::Neuter, Number::Plural));
}

#[test]
fn a_common_gender_is_read_as_the_masculine() {
    let held = past::table("чита");
    assert_eq!(held.of(Gender::Common, Number::Singular), held.of(Gender::Masculine, Number::Singular));
}

#[test]
fn an_empty_stem_is_read_as_ending_in_a_consonant() {
    assert_eq!(past::table("").of(Gender::Masculine, Number::Singular), "");
}

#[test]
fn a_stem_in_a_vowel_takes_the_glide() {
    assert_eq!(imperative::of("чита", false), Ending::Glide);
    assert_eq!(imperative::of("да", false), Ending::Glide);
    assert_eq!(imperative::of("сто", true), Ending::Glide);
}

#[test]
fn a_stressed_ending_takes_the_vowel() {
    assert_eq!(imperative::of("нес", true), Ending::Vowel);
    assert_eq!(imperative::of("ид", true), Ending::Vowel);
}

#[test]
fn two_consonants_take_the_vowel_whatever_the_stress() {
    assert_eq!(imperative::of("помн", false), Ending::Vowel);
    assert_eq!(imperative::of("крикн", false), Ending::Vowel);
}

#[test]
fn one_consonant_with_the_stress_on_the_stem_takes_the_soft_sign() {
    assert_eq!(imperative::of("брос", false), Ending::SoftSign);
    assert_eq!(imperative::of("готов", false), Ending::SoftSign);
}

#[test]
fn a_single_consonant_after_a_vowel_takes_the_soft_sign() {
    assert_eq!(imperative::of("встан", false), Ending::SoftSign);
}

#[test]
fn the_endings_are_written_as_stated() {
    assert_eq!(Ending::Glide.written(), "й");
    assert_eq!(Ending::Vowel.written(), "и");
    assert_eq!(Ending::SoftSign.written(), "ь");
}

#[test]
fn a_settled_stem_needs_no_stress() {
    assert!(imperative::settled("чита"));
    assert!(imperative::settled("помн"));
    assert!(!imperative::settled("нес"));
    assert!(!imperative::settled(""));
    assert_eq!(imperative::PLURAL, "те");
}

#[test]
fn the_particle_follows_the_last_letter() {
    assert_eq!(reflexive::particle("умывал"), "ся");
    assert_eq!(reflexive::particle("умывала"), "сь");
    assert_eq!(reflexive::attached("умывала"), "умывалась");
    assert_eq!(reflexive::attached("умываю"), "умываюсь");
    assert_eq!(reflexive::bare("умываться"), Some("умывать".to_string()));
    assert_eq!(reflexive::bare("умывалась"), Some("умывала".to_string()));
    assert_eq!(reflexive::bare("умывать"), None);
}
