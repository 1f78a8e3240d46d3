use rusem::grammar::conjugation::inflect::written as verb_written;
use rusem::grammar::conjugation::reading::cells as verb_cells;
use rusem::grammar::declension::adjective::written as adjective_written;
use rusem::grammar::declension::noun::stem as noun_stem;
use rusem::grammar::declension::numeral::cases;
use rusem::grammar::declension::pronominal::{cells as pronoun_cells, written as pronoun_written};
use rusem::grammar::declension::reading::cells as noun_cells;
use rusem::grammar::form::read::form;
use rusem::grammar::form::verb::VerbForm;
use rusem::grammar::form::{Bare, Form};
use rusem::grammar::{GrammarTag, Mood, PartOfSpeech, Person, Tense};
use rusem::grammar::conjugation::class::{of as class_of, Class};
use rusem::grammar::conjugation::{of as conjugation_of, Conjugation};
use rusem::grammar::declension::endings::table;
use rusem::grammar::declension::index::Kind;
use rusem::grammar::declension::numeral::written;
use rusem::grammar::declension::spelling::{fitted, merged, parted};
use rusem::grammar::declension::stated::ending::second;
use rusem::grammar::declension::Declension;
use rusem::grammar::stem::Stem;
use rusem::grammar::{Animacy, Case, Gender, Number};

#[test]
fn a_fitted_ending_keeps_the_code_after_a_sibilant() {
    let once = fitted("нож", "ы", false);
    assert_eq!(once, "и");
    assert_eq!(fitted("нож", &once, false), "и");
    assert_eq!(fitted("немц", "ом", false), "ем");
    assert_eq!(fitted("немц", "ом", true), "ом");
    assert_eq!(fitted("дач", "ю", false), "у");
    assert_eq!(fitted("стол", "ы", false), "ы");
}

#[test]
fn merging_a_parted_stem_gives_it_back() {
    let parted_stem = parted("окн", false);
    assert_eq!(parted_stem, "окон");
    assert_eq!(merged(&parted_stem), Some(String::from("окн")));
    let sister = parted("сестр", true);
    assert_eq!(sister, "сестёр");
    assert_eq!(merged(&sister), Some(String::from("сестр")));
}

#[test]
fn animacy_tells_only_in_the_accusative_of_a_paradigm() {
    let endings = table(Declension::Second, Stem::Hard, Gender::Masculine, Number::Plural)
        .unwrap_or_else(|| unreachable!("the second declension has a plural"));
    for case in [Case::Nominative, Case::Genitive, Case::Dative, Case::Instrumental, Case::Prepositional] {
        assert_eq!(endings.of(case, Animacy::Animate), endings.of(case, Animacy::Inanimate));
    }
    assert_ne!(endings.of(Case::Accusative, Animacy::Animate), endings.of(Case::Accusative, Animacy::Inanimate));
}

#[test]
fn the_masculine_and_the_neuter_share_the_oblique_cells() {
    for case in [Case::Genitive, Case::Dative, Case::Instrumental, Case::Prepositional] {
        assert_eq!(
            second::of(Gender::Masculine, Kind::Hard, case, Number::Singular, Animacy::Inanimate, false),
            second::of(Gender::Neuter, Kind::Hard, case, Number::Singular, Animacy::Inanimate, false)
        );
    }
    assert_eq!(second::of(Gender::Masculine, Kind::Hard, Case::Genitive, Number::Plural, Animacy::Inanimate, false), "ов");
    assert_eq!(second::of(Gender::Neuter, Kind::Hard, Case::Genitive, Number::Plural, Animacy::Inanimate, false), "");
}

#[test]
fn a_twofold_numeral_says_one_oblique_form() {
    for case in [Case::Genitive, Case::Dative, Case::Instrumental, Case::Prepositional] {
        assert_eq!(written("сорок", case, Animacy::Inanimate), Some(String::from("сорока")));
        assert_eq!(written("сто", case, Animacy::Animate), Some(String::from("ста")));
    }
    assert_eq!(written("сорок", Case::Accusative, Animacy::Animate), Some(String::from("сорок")));
}

#[test]
fn a_prefix_keeps_a_verb_where_its_bare_verb_stands() {
    assert_eq!(conjugation_of("дать"), Conjugation::Irregular);
    assert_eq!(conjugation_of("задать"), Conjugation::Irregular);
    assert_eq!(conjugation_of("съесть"), Conjugation::Irregular);
    assert_eq!(class_of("писать"), Class::Swapped);
    assert_eq!(class_of("переписать"), Class::Swapped);
    assert_eq!(class_of("мыть"), Class::Listed);
    assert_eq!(class_of("умыть"), Class::Listed);
}

#[test]
fn the_forms_of_a_verb_hang_together() {
    assert_eq!(verb_written("читать", VerbForm::Infinitive, false).as_deref(), Some("читать"));
    let one = verb_written("читать", VerbForm::Imperative(Number::Singular), false);
    let many = verb_written("читать", VerbForm::Imperative(Number::Plural), false);
    assert_eq!(one.as_deref(), Some("читай"));
    assert_eq!(many, one.map(|held| held + "те"));
    let bare = verb_written("читать", VerbForm::Past(Bare::Plural), false);
    let reflexive = verb_written("читаться", VerbForm::Past(Bare::Plural), false);
    assert_eq!(bare.as_deref(), Some("читали"));
    assert_eq!(reflexive.as_deref(), Some("читались"));
    assert_eq!(verb_written("нести", VerbForm::Past(Bare::Plural), false), None);
    assert_eq!(verb_written("тереть", VerbForm::Present { person: Person::First, number: Number::Singular }, false), None);
}

#[test]
fn the_accusative_of_an_adjective_borrows_its_form() {
    assert_eq!(
        adjective_written("новый", Case::Accusative, Number::Singular, Gender::Masculine, Animacy::Animate).as_deref(),
        Some("нового")
    );
    assert_eq!(
        adjective_written("новый", Case::Accusative, Number::Plural, Gender::Feminine, Animacy::Inanimate),
        adjective_written("новый", Case::Nominative, Number::Plural, Gender::Feminine, Animacy::Inanimate)
    );
}

#[test]
fn only_a_noun_in_mya_changes_its_stem() {
    for case in [Case::Nominative, Case::Genitive, Case::Instrumental] {
        assert_eq!(noun_stem("стол", Gender::Masculine, Animacy::Inanimate, case, Number::Plural).as_deref(), Some("стол"));
    }
    assert_eq!(noun_stem("время", Gender::Neuter, Animacy::Inanimate, Case::Genitive, Number::Singular).as_deref(), Some("времен"));
    assert_eq!(noun_stem("мадам", Gender::Feminine, Animacy::Animate, Case::Genitive, Number::Singular), None);
}

#[test]
fn a_past_tag_with_a_person_is_read_as_the_past() {
    let tag = GrammarTag {
        tense: Some(Tense::Past),
        mood: Some(Mood::Indicative),
        person: Some(Person::Third),
        number: Some(Number::Plural),
        ..GrammarTag::of(PartOfSpeech::Verb)
    };
    let read = form(&tag);
    assert_eq!(read, Some(Form::Verb(VerbForm::Past(Bare::Plural))));
    assert_eq!(read.map(|held| held.tag().person), Some(None));
    assert_eq!(form(&GrammarTag { case: Some(Case::Genitive), ..GrammarTag::of(PartOfSpeech::Infinitive) }), None);
}

#[test]
fn a_form_reads_the_same_with_e_for_yo() {
    assert_eq!(verb_cells("несёшь", "нести"), verb_cells("несешь", "нести"));
    assert_eq!(
        noun_cells("времён", "время", Gender::Neuter, Animacy::Inanimate),
        noun_cells("времен", "время", Gender::Neuter, Animacy::Inanimate)
    );
}

#[test]
fn a_written_form_is_read_back_at_the_public_readers() {
    let form_written = pronoun_written("тот", Gender::Masculine, Number::Singular, Case::Instrumental, Animacy::Inanimate)
        .unwrap_or_else(|| unreachable!("тот declines"));
    assert!(!pronoun_cells(&form_written, "тот", Animacy::Inanimate).is_empty());
    let numeral = rusem::grammar::declension::numeral::written("пять", Case::Dative, Animacy::Inanimate)
        .unwrap_or_else(|| unreachable!("пять declines"));
    assert!(cases(&numeral, "пять", Animacy::Inanimate).contains(&Case::Dative));
}
