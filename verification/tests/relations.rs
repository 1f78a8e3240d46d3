use rusem::grammar::dependency::governed::{admits, handed};
use rusem::grammar::dependency::predicate::{person_of, said_of};
use rusem::grammar::dependency::{agreeing, agrees, case_of};
use rusem::grammar::form::verb::VerbForm;
use rusem::grammar::form::{Adjectival, Agreed, Bare, Form};
use rusem::grammar::{Case, Gender, Number, Person};
use rusem::id::{FrameId, LemmaId, MorphemeId, SenseId, SourceId};

#[test]
fn zero_is_rejected() {
    assert!(LemmaId::new(0).is_none());
    assert!(SenseId::new(0).is_none());
}

#[test]
fn raw_value_round_trips() {
    let id = MorphemeId::new(42).expect("non-zero");
    assert_eq!(id.get(), 42);
}

#[test]
fn first_identifier_is_one() {
    assert_eq!(LemmaId::first().get(), 1);
}

#[test]
fn display_is_prefixed() {
    let id = FrameId::new(7).expect("non-zero");
    assert_eq!(id.to_string(), "frame:7");
}

#[test]
fn every_identifier_writes_its_prefix_and_its_number() {
    assert_eq!(SourceId::new(4_294_967_295).expect("non-zero").to_string(), "source:4294967295");
    assert_eq!(SenseId::new(10).expect("non-zero").to_string(), "sense:10");
    assert_eq!(LemmaId::first().to_string(), "lemma:1");
    assert_eq!(MorphemeId::new(905).expect("non-zero").to_string(), "morph:905");
}

fn noun(case: Case, gender: Gender) -> Form {
    Form::Noun(Agreed::Singular { case, gender })
}

fn attribute(case: Case, gender: Gender) -> Form {
    Form::Adjective(Adjectival::Full(Agreed::Singular { case, gender }))
}

#[test]
fn a_dependent_in_the_head_s_cell_agrees() {
    assert!(agrees(noun(Case::Dative, Gender::Neuter), attribute(Case::Dative, Gender::Neuter)));
}

#[test]
fn a_dependent_in_another_case_does_not() {
    assert!(!agrees(noun(Case::Dative, Gender::Neuter), attribute(Case::Genitive, Gender::Neuter)));
}

#[test]
fn a_dependent_in_another_gender_does_not() {
    assert!(!agrees(noun(Case::Dative, Gender::Neuter), attribute(Case::Dative, Gender::Feminine)));
}

#[test]
fn a_dependent_in_another_number_does_not() {
    let plural = Form::Adjective(Adjectival::Full(Agreed::Plural { case: Case::Dative }));
    assert!(!agrees(noun(Case::Dative, Gender::Neuter), plural));
}

#[test]
fn the_plural_agrees_without_a_gender_to_agree_in() {
    let head = Form::Noun(Agreed::Plural { case: Case::Instrumental });
    let dependent = Form::Adjective(Adjectival::Full(Agreed::Plural { case: Case::Instrumental }));
    assert!(agrees(head, dependent));
}

#[test]
fn the_second_prepositional_agrees_with_the_first() {
    assert!(agrees(noun(Case::Locative, Gender::Masculine), attribute(Case::Prepositional, Gender::Masculine)));
}

#[test]
fn a_word_that_states_no_case_agrees_with_nothing() {
    let verb = Form::Verb(VerbForm::Present { person: Person::Third, number: Number::Singular });
    assert!(!agrees(noun(Case::Nominative, Gender::Masculine), verb));
    assert!(!agrees(verb, attribute(Case::Nominative, Gender::Masculine)));
}

#[test]
fn agreement_runs_both_ways() {
    let pairs = [
        (noun(Case::Locative, Gender::Masculine), attribute(Case::Prepositional, Gender::Masculine)),
        (noun(Case::Dative, Gender::Neuter), attribute(Case::Dative, Gender::Feminine)),
    ];
    for (head, dependent) in pairs {
        assert_eq!(agrees(head, dependent), agrees(dependent, head));
    }
    assert_eq!(agreeing(Form::Adverb), None);
    assert_eq!(case_of(noun(Case::Partitive, Gender::Masculine)), Some(Case::Genitive));
}

fn governed(case: Case) -> Form {
    Form::Noun(Agreed::Singular { case, gender: Gender::Masculine })
}

#[test]
fn a_preposition_admits_the_case_it_hands_out() {
    assert!(admits("в", governed(Case::Accusative)));
    assert!(admits("в", governed(Case::Prepositional)));
    assert!(admits("от", governed(Case::Genitive)));
}

#[test]
fn a_preposition_refuses_a_case_it_does_not_hand_out() {
    assert!(!admits("от", governed(Case::Dative)));
    assert!(!admits("в", governed(Case::Instrumental)));
}

#[test]
fn the_second_locative_is_the_prepositional_a_preposition_hands_out() {
    assert!(admits("в", governed(Case::Locative)));
}

#[test]
fn a_word_standing_in_no_case_cannot_be_governed() {
    let verb = Form::Verb(VerbForm::Present { person: Person::Third, number: Number::Singular });
    assert!(!admits("в", verb));
    assert!(!admits("в", Form::Adverb));
}

#[test]
fn a_preposition_hands_out_the_cases_the_closed_class_states() {
    assert!(!handed("в").is_empty());
    assert!(handed("стол").is_empty());
    assert_eq!(handed("с"), &[Case::Genitive, Case::Accusative, Case::Instrumental]);
}

fn subject(gender: Gender, number: Number) -> Form {
    Form::Noun(match number {
        Number::Singular => Agreed::Singular { case: Case::Nominative, gender },
        Number::Plural => Agreed::Plural { case: Case::Nominative },
    })
}

fn present(person: Person, number: Number) -> Form {
    Form::Verb(VerbForm::Present { person, number })
}

#[test]
fn a_noun_takes_a_predicate_of_the_third_person() {
    let table = subject(Gender::Masculine, Number::Singular);
    assert!(said_of(table, present(Person::Third, Number::Singular)));
    assert!(!said_of(table, present(Person::First, Number::Singular)));
}

#[test]
fn a_predicate_of_another_number_is_not_said_of_it() {
    let table = subject(Gender::Masculine, Number::Singular);
    assert!(!said_of(table, present(Person::Third, Number::Plural)));
}

#[test]
fn the_past_agrees_in_gender_and_says_nothing_of_person() {
    let book = subject(Gender::Feminine, Number::Singular);
    assert!(said_of(book, Form::Verb(VerbForm::Past(Bare::Singular(Gender::Feminine)))));
    assert!(!said_of(book, Form::Verb(VerbForm::Past(Bare::Singular(Gender::Masculine)))));
}

#[test]
fn a_plural_subject_takes_a_plural_past_of_any_gender() {
    let many = subject(Gender::Masculine, Number::Plural);
    assert!(said_of(many, Form::Verb(VerbForm::Past(Bare::Plural))));
    assert!(!said_of(many, Form::Verb(VerbForm::Past(Bare::Singular(Gender::Masculine)))));
}

#[test]
fn a_pronoun_subject_is_judged_on_number_alone() {
    let held = Form::Pronoun(Agreed::Singular { case: Case::Nominative, gender: Gender::Masculine });
    assert_eq!(person_of(held), None);
    assert!(said_of(held, present(Person::First, Number::Singular)));
    assert!(!said_of(held, present(Person::First, Number::Plural)));
}
