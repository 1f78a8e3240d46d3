use rusem::grammar::declension::adjective::{self, compared, short};
use rusem::grammar::declension::agreed::{self, Cell};
use rusem::grammar::declension::attributive;
use rusem::grammar::form::Bare;
use rusem::grammar::stem::Stem;
use rusem::grammar::{Animacy, Case, Gender, Number};

fn cell(gender: Gender) -> Bare {
    Bare::Singular(gender)
}

#[test]
fn a_bare_stem_takes_the_nominal_endings() {
    assert_eq!(short::written("новый", cell(Gender::Masculine)).as_deref(), Some("нов"));
    assert_eq!(short::written("новый", cell(Gender::Feminine)).as_deref(), Some("нова"));
    assert_eq!(short::written("новый", cell(Gender::Neuter)).as_deref(), Some("ново"));
    assert_eq!(short::written("новый", Bare::Plural).as_deref(), Some("новы"));
}

#[test]
fn a_pair_closed_by_the_suffix_is_parted() {
    assert_eq!(short::written("красный", cell(Gender::Masculine)).as_deref(), Some("красен"));
    assert_eq!(short::written("важный", cell(Gender::Masculine)).as_deref(), Some("важен"));
    assert_eq!(short::written("резкий", cell(Gender::Masculine)).as_deref(), Some("резок"));
}

#[test]
fn a_pair_off_the_suffixes_is_refused_not_guessed() {
    for held in ["храбрый", "добрый", "хитрый", "острый", "злой"] {
        assert_eq!(short::written(held, cell(Gender::Masculine)), None, "{held}");
    }
    assert_eq!(short::written("хитрый", cell(Gender::Feminine)).as_deref(), Some("хитра"));
}

#[test]
fn a_soft_sign_before_the_suffix_yields_to_the_vowel() {
    assert_eq!(short::written("горький", cell(Gender::Masculine)).as_deref(), Some("горек"));
    assert_eq!(short::written("довольный", cell(Gender::Masculine)).as_deref(), Some("доволен"));
}

#[test]
fn a_masculine_the_dictionary_marks_off_the_rule_is_refused() {
    for held in ["полный", "солёный", "достойный", "недостойный"] {
        assert_eq!(short::written(held, cell(Gender::Masculine)), None, "{held}");
    }
    assert_eq!(short::written("полный", cell(Gender::Feminine)).as_deref(), Some("полна"));
}

#[test]
fn short_the_lemmas_yo_is_written_e_off_its_stress() {
    assert_eq!(short::written("тёмный", cell(Gender::Masculine)).as_deref(), Some("темен"));
    assert_eq!(short::written("тёмный", cell(Gender::Feminine)).as_deref(), Some("темна"));
    assert_eq!(short::written("зелёный", cell(Gender::Masculine)).as_deref(), Some("зелен"));
    assert_eq!(short::written("весёлый", Bare::Plural).as_deref(), Some("веселы"));
}

#[test]
fn a_soft_stem_keeps_its_softness_in_the_bare_masculine() {
    assert_eq!(short::written("синий", cell(Gender::Masculine)).as_deref(), Some("синь"));
    assert_eq!(short::written("синий", cell(Gender::Feminine)).as_deref(), Some("синя"));
    assert_eq!(short::written("синий", Bare::Plural).as_deref(), Some("сини"));
}

#[test]
fn the_neuter_after_a_sibilant_is_unstated_off_the_ending_stress() {
    assert_eq!(short::written("хороший", cell(Gender::Neuter)), None);
    assert_eq!(short::written("смешной", cell(Gender::Neuter)).as_deref(), Some("смешно"));
}

#[test]
fn a_relational_adjective_has_no_short_form() {
    for gender in Gender::STATED {
        assert_eq!(short::written("русский", cell(gender)), None);
    }
    assert_eq!(short::written("русский", Bare::Plural), None);
}

#[test]
fn the_productive_ending_goes_on_the_bare_stem() {
    assert_eq!(compared::written("новый").as_deref(), Some("новее"));
    assert_eq!(compared::written("важный").as_deref(), Some("важнее"));
    assert_eq!(compared::written("свежий").as_deref(), Some("свежее"));
}

#[test]
fn a_back_consonant_swaps_and_takes_the_short_ending() {
    assert_eq!(compared::written("громкий").as_deref(), Some("громче"));
    assert_eq!(compared::written("тихий").as_deref(), Some("тише"));
    assert_eq!(compared::written("строгий").as_deref(), Some("строже"));
    assert_eq!(compared::written("дорогой").as_deref(), Some("дороже"));
}

#[test]
fn a_suppletive_comparative_is_refused_not_fabricated() {
    for held in ["хороший", "плохой", "большой", "малый", "маленький"] {
        assert_eq!(compared::written(held), None, "{held}");
    }
}

#[test]
fn a_dental_stem_is_refused_not_handed_the_productive_ending() {
    for held in ["молодой", "простой", "частый", "чистый", "богатый", "толстый", "твёрдый"] {
        assert_eq!(compared::written(held), None, "{held}");
    }
}

#[test]
fn a_suffix_k_the_comparative_cuts_is_refused() {
    for held in ["узкий", "низкий", "высокий", "широкий", "короткий", "сладкий", "редкий", "мелкий"] {
        assert_eq!(compared::written(held), None, "{held}");
    }
}

#[test]
fn a_comparative_the_grammar_lists_on_another_suffix_is_refused() {
    for held in ["далёкий", "долгий", "тонкий", "старый", "ранний", "глубокий", "дешёвый"] {
        assert_eq!(compared::written(held), None, "{held}");
    }
}

#[test]
fn compared_the_lemmas_yo_is_written_e_off_its_stress() {
    assert_eq!(compared::written("зелёный").as_deref(), Some("зеленее"));
    assert_eq!(compared::written("весёлый").as_deref(), Some("веселее"));
    assert_eq!(compared::written("лёгкий").as_deref(), Some("легче"));
    assert_eq!(compared::written("тяжёлый").as_deref(), Some("тяжелее"));
}

#[test]
fn a_relational_adjective_does_not_compare() {
    assert_eq!(compared::written("русский"), None);
}

#[test]
fn a_full_adjective_is_declined_by_the_agreeing_table() {
    let write = |dictionary: &str, case: Case, gender: Gender| {
        adjective::written(dictionary, case, Number::Singular, gender, Animacy::Inanimate)
    };
    assert_eq!(write("новый", Case::Genitive, Gender::Masculine).as_deref(), Some("нового"));
    assert_eq!(write("синий", Case::Dative, Gender::Feminine).as_deref(), Some("синей"));
    assert_eq!(write("молодой", Case::Nominative, Gender::Masculine).as_deref(), Some("молодой"));
    assert_eq!(write("хороший", Case::Instrumental, Gender::Neuter).as_deref(), Some("хорошим"));
    assert_eq!(
        adjective::written("новый", Case::Accusative, Number::Plural, Gender::Masculine, Animacy::Animate)
            .as_deref(),
        Some("новых")
    );
    assert_eq!(adjective::parted("синий"), Some(("син".to_string(), Stem::Soft)));
    assert_eq!(adjective::parted("ой"), None);
    assert_eq!(adjective::undotted("зелён"), "зелен");
}

#[test]
fn the_agreeing_table_states_its_rows() {
    let held = attributive::table(Stem::Hard, Gender::Feminine, Number::Singular, false);
    assert_eq!(held.of(Case::Accusative, Animacy::Animate), "ую");
    let plural = attributive::table(Stem::Soft, Gender::Neuter, Number::Plural, false);
    assert_eq!(plural.of(Case::Accusative, Animacy::Animate), "их");
    assert_eq!(plural.of(Case::Locative, Animacy::Animate), "их");
}

#[test]
fn an_adjective_reads_back_into_every_cell_it_stands_in() {
    let found = agreed::cells("новой", "новый", Animacy::Inanimate);
    assert_eq!(found.len(), 4);
    assert!(found.contains(&Cell { case: Case::Genitive, number: Number::Singular, gender: Some(Gender::Feminine) }));
    assert!(!found.contains(&Cell { case: Case::Accusative, number: Number::Singular, gender: Some(Gender::Feminine) }));
    assert_eq!(agreed::cells("новых", "новый", Animacy::Animate).len(), 3);
    assert!(agreed::cells("нов", "ой", Animacy::Animate).is_empty());
}
