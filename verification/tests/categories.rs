use rusem::grammar::form::verb::{Participle, VerbForm};
use rusem::grammar::form::{animacy_shows, Adjectival, Agreed, Bare, Form};
use rusem::grammar::form::read::form;
use rusem::grammar::stem::{is_sibilant, Stem};
use rusem::grammar::{
    Animacy, Case, Gender, GrammarTag, Mood, Number, PartOfSpeech, Person, Tense, Voice,
};

#[test]
fn content_words_are_looked_up() {
    assert!(PartOfSpeech::Verb.is_content());
    assert!(!PartOfSpeech::Conjunction.is_content());
}

#[test]
fn predicates_head_frames() {
    assert!(PartOfSpeech::Verb.is_predicative());
    assert!(!PartOfSpeech::Noun.is_predicative());
}

#[test]
fn unstated_categories_do_not_clash() {
    let noun = GrammarTag { gender: Some(Gender::Feminine), ..GrammarTag::of(PartOfSpeech::Noun) };
    let adjective = GrammarTag::of(PartOfSpeech::Adjective);
    assert!(noun.agrees_with(&adjective));
}

#[test]
fn stated_categories_must_match() {
    let singular = GrammarTag { number: Some(Number::Singular), ..GrammarTag::empty() };
    let plural = GrammarTag { number: Some(Number::Plural), ..GrammarTag::empty() };
    assert!(!singular.agrees_with(&plural));
}

#[test]
fn agreement_runs_both_ways_and_a_tag_agrees_with_itself() {
    let noun = GrammarTag {
        case: Some(Case::Genitive),
        number: Some(Number::Plural),
        ..GrammarTag::of(PartOfSpeech::Noun)
    };
    let adjective = GrammarTag { case: Some(Case::Partitive), ..GrammarTag::of(PartOfSpeech::Adjective) };
    assert!(noun.agrees_with(&noun));
    assert_eq!(noun.agrees_with(&adjective), adjective.agrees_with(&noun));
}

#[test]
fn a_consonant_that_carries_its_softness_settles_itself() {
    assert_eq!(Stem::of('ч'), Stem::Soft);
    assert_eq!(Stem::of('щ'), Stem::Soft);
    assert_eq!(Stem::of('ж'), Stem::Hard);
    assert_eq!(Stem::of('ц'), Stem::Hard);
}

#[test]
fn the_soft_sign_and_the_soft_vowels_state_a_soft_stem() {
    assert_eq!(Stem::of('ь'), Stem::Soft);
    assert_eq!(Stem::of('я'), Stem::Soft);
    assert_eq!(Stem::of('ё'), Stem::Soft);
}

#[test]
fn everything_else_is_hard() {
    assert_eq!(Stem::of('т'), Stem::Hard);
    assert_eq!(Stem::of('а'), Stem::Hard);
}

#[test]
fn the_sibilants_are_named() {
    assert!(is_sibilant('ж'));
    assert!(is_sibilant('щ'));
    assert!(!is_sibilant('ц'));
}

#[test]
fn a_plural_states_no_gender() {
    let held = Agreed::Plural { case: Case::Nominative };
    assert_eq!(held.gender(), None);
    assert_eq!(held.number(), Number::Plural);
}

#[test]
fn a_noun_states_a_case_and_a_verb_does_not() {
    let noun = Form::Noun(Agreed::Singular { case: Case::Genitive, gender: Gender::Masculine });
    assert_eq!(noun.case(), Some(Case::Genitive));
    assert_eq!(Form::Verb(VerbForm::Infinitive).case(), None);
}

#[test]
fn a_short_adjective_states_no_case() {
    let held = Form::Adjective(Adjectival::Short(Bare::Singular(Gender::Feminine)));
    assert_eq!(held.case(), None);
    assert_eq!(held.gender(), Some(Gender::Feminine));
    assert_eq!(held.part_of_speech(), PartOfSpeech::ShortAdjective);
}

#[test]
fn a_compared_adjective_states_nothing_but_itself() {
    let held = Form::Adjective(Adjectival::Compared);
    assert_eq!(held.case(), None);
    assert_eq!(held.number(), None);
    assert_eq!(held.gender(), None);
}

#[test]
fn a_form_becomes_the_tag_an_adapter_speaks_in() {
    let held = Form::Noun(Agreed::Singular { case: Case::Dative, gender: Gender::Neuter }).tag();
    assert_eq!(held.part_of_speech, Some(PartOfSpeech::Noun));
    assert_eq!(held.case, Some(Case::Dative));
    assert_eq!(held.person, None);
}

#[test]
fn animacy_is_only_visible_in_the_accusative() {
    assert!(animacy_shows(Case::Accusative, Animacy::Animate));
    assert!(!animacy_shows(Case::Nominative, Animacy::Animate));
}

#[test]
fn the_infinitive_states_nothing() {
    let held = VerbForm::Infinitive;
    assert_eq!(held.case(), None);
    assert_eq!(held.number(), None);
    assert_eq!(held.person(), None);
    assert_eq!(held.tense(), None);
}

#[test]
fn the_present_states_person_and_no_gender() {
    let held = VerbForm::Present { person: Person::First, number: Number::Singular };
    assert_eq!(held.person(), Some(Person::First));
    assert_eq!(held.gender(), None);
    assert_eq!(held.tense(), Some(Tense::Present));
}

#[test]
fn the_past_states_gender_and_no_person() {
    let held = VerbForm::Past(Bare::Singular(Gender::Feminine));
    assert_eq!(held.gender(), Some(Gender::Feminine));
    assert_eq!(held.person(), None);
    assert_eq!(held.tense(), Some(Tense::Past));
}

#[test]
fn the_past_plural_states_neither() {
    let held = VerbForm::Past(Bare::Plural);
    assert_eq!(held.gender(), None);
    assert_eq!(held.person(), None);
    assert_eq!(held.number(), Some(Number::Plural));
}

#[test]
fn only_the_full_participle_stands_in_a_case() {
    let full = VerbForm::Participle {
        voice: Voice::Active,
        tense: Tense::Present,
        form: Participle::Full(Agreed::Plural { case: Case::Dative }),
    };
    let short = VerbForm::Participle {
        voice: Voice::Passive,
        tense: Tense::Past,
        form: Participle::Short(Bare::Plural),
    };
    assert_eq!(full.case(), Some(Case::Dative));
    assert_eq!(short.case(), None);
    assert_eq!(short.part_of_speech(), PartOfSpeech::ShortParticiple);
}

#[test]
fn the_adverbial_states_only_a_tense() {
    let held = VerbForm::Adverbial(Tense::Past);
    assert_eq!(held.tense(), Some(Tense::Past));
    assert_eq!(held.number(), None);
    assert_eq!(held.gender(), None);
}

fn tag(part: PartOfSpeech) -> GrammarTag {
    GrammarTag { part_of_speech: Some(part), ..GrammarTag::empty() }
}

#[test]
fn a_noun_is_read_into_a_case_and_a_number() {
    let held = GrammarTag {
        case: Some(Case::Genitive),
        number: Some(Number::Singular),
        gender: Some(Gender::Masculine),
        ..tag(PartOfSpeech::Noun)
    };
    assert_eq!(form(&held).and_then(Form::case), Some(Case::Genitive));
}

#[test]
fn a_verb_in_a_case_is_refused() {
    let held = GrammarTag {
        case: Some(Case::Genitive),
        person: Some(Person::Third),
        number: Some(Number::Singular),
        ..tag(PartOfSpeech::Verb)
    };
    assert_eq!(form(&held), None);
}

#[test]
fn a_past_tense_in_a_person_is_refused() {
    let held = GrammarTag {
        tense: Some(Tense::Past),
        person: Some(Person::First),
        number: Some(Number::Singular),
        gender: Some(Gender::Masculine),
        ..tag(PartOfSpeech::Verb)
    };
    assert!(matches!(form(&held), Some(Form::Verb(VerbForm::Past(_)))));
    assert_eq!(
        form(&held).and_then(|read| read.tag().person),
        None,
        "the person is dropped rather than carried"
    );
}

#[test]
fn an_infinitive_that_states_a_person_is_refused() {
    let held = GrammarTag { person: Some(Person::First), ..tag(PartOfSpeech::Infinitive) };
    assert_eq!(form(&held), None);
    assert_eq!(form(&tag(PartOfSpeech::Infinitive)), Some(Form::Verb(VerbForm::Infinitive)));
}

#[test]
fn a_short_form_in_a_case_is_refused() {
    let held = GrammarTag {
        case: Some(Case::Nominative),
        number: Some(Number::Singular),
        gender: Some(Gender::Feminine),
        ..tag(PartOfSpeech::ShortAdjective)
    };
    assert_eq!(form(&held), None);
}

#[test]
fn a_participle_carries_its_voice_and_its_case() {
    let held = GrammarTag {
        voice: Some(Voice::Passive),
        tense: Some(Tense::Past),
        case: Some(Case::Dative),
        number: Some(Number::Plural),
        ..tag(PartOfSpeech::Participle)
    };
    assert_eq!(form(&held).and_then(Form::case), Some(Case::Dative));
}

#[test]
fn a_predicative_is_read_as_itself_and_not_as_an_adverb() {
    let held = form(&tag(PartOfSpeech::Predicative));
    assert_eq!(held, Some(Form::Predicative));
    assert_eq!(
        held.map(Form::part_of_speech),
        Some(PartOfSpeech::Predicative),
        "the part of speech survives the round trip"
    );
}

#[test]
fn a_singular_without_a_gender_is_refused() {
    let held = GrammarTag {
        case: Some(Case::Nominative),
        number: Some(Number::Singular),
        ..tag(PartOfSpeech::Noun)
    };
    assert_eq!(form(&held), None);
}

#[test]
fn every_form_reads_back_from_the_tag_it_writes() {
    let forms = [
        Form::Noun(Agreed::Singular { case: Case::Dative, gender: Gender::Neuter }),
        Form::Adjective(Adjectival::Short(Bare::Plural)),
        Form::Adjective(Adjectival::Compared),
        Form::Verb(VerbForm::Past(Bare::Singular(Gender::Feminine))),
        Form::Verb(VerbForm::Imperative(Number::Plural)),
        Form::Verb(VerbForm::Present { person: Person::Second, number: Number::Singular }),
        Form::Predicative,
    ];
    for held in forms {
        assert_eq!(form(&held.tag()), Some(held));
    }
    assert_eq!(Form::Verb(VerbForm::Imperative(Number::Singular)).tag().mood, Some(Mood::Imperative));
}
