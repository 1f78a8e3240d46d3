use rusem::grammar::conjugation::index::{self, VerbIndex};
use rusem::grammar::conjugation::participle::dictionary;
use rusem::grammar::conjugation::reading::Cell;
use rusem::grammar::conjugation::stated::bidden::labial::{shed, soft};
use rusem::grammar::conjugation::stated::{self, bidden, gone, reading, stem};
use rusem::grammar::form::verb::{Participle, VerbForm};
use rusem::grammar::form::Bare;
use rusem::grammar::{Gender, Number, Person, Tense, Voice};

fn stated_index(written: &str) -> VerbIndex {
    index::read(written).unwrap_or_else(|| unreachable!("a stated index"))
}

fn cell(infinitive: &str, written: &str, person: Person, number: Number) -> Option<String> {
    stated::written(infinitive, stated_index(written), VerbForm::Present { person, number }, false)
}

fn six(infinitive: &str, written: &str, wanted: [&str; 6]) {
    let held = [
        cell(infinitive, written, Person::First, Number::Singular),
        cell(infinitive, written, Person::Second, Number::Singular),
        cell(infinitive, written, Person::Third, Number::Singular),
        cell(infinitive, written, Person::First, Number::Plural),
        cell(infinitive, written, Person::Second, Number::Plural),
        cell(infinitive, written, Person::Third, Number::Plural),
    ];
    let found: Vec<&str> = held.iter().map(|one| one.as_deref().unwrap_or("")).collect();
    assert_eq!(found, wanted, "{infinitive} {written}");
}

#[test]
fn the_first_class_glides_and_the_second_trades_its_suffix() {
    six("читать", "1a", ["читаю", "читаешь", "читает", "читаем", "читаете", "читают"]);
    six("рисовать", "2a", ["рисую", "рисуешь", "рисует", "рисуем", "рисуете", "рисуют"]);
    six("ковать", "2b", ["кую", "куёшь", "куёт", "куём", "куёте", "куют"]);
}

#[test]
fn the_scheme_letter_parts_yo_from_e() {
    six("толкнуть", "3b", ["толкну", "толкнёшь", "толкнёт", "толкнём", "толкнёте", "толкнут"]);
    six("тянуть", "3c", ["тяну", "тянешь", "тянет", "тянем", "тянете", "тянут"]);
}

#[test]
fn the_second_conjugation_swaps_its_first_person_alone() {
    six("ставить", "4a", ["ставлю", "ставишь", "ставит", "ставим", "ставите", "ставят"]);
    six("говорить", "4b", ["говорю", "говоришь", "говорит", "говорим", "говорите", "говорят"]);
    six("просить", "4c", ["прошу", "просишь", "просит", "просим", "просите", "просят"]);
    six("любить", "4c(4)", ["люблю", "любишь", "любит", "любим", "любите", "любят"]);
    six("слышать", "5a", ["слышу", "слышишь", "слышит", "слышим", "слышите", "слышат"]);
    six("смотреть", "5c", ["смотрю", "смотришь", "смотрит", "смотрим", "смотрите", "смотрят"]);
    six("спать", "5b/c", ["сплю", "спишь", "спит", "спим", "спите", "спят"]);
    six("держать", "5b", ["держу", "держишь", "держит", "держим", "держите", "держат"]);
}

#[test]
fn the_sixth_class_swaps_throughout() {
    six("плакать", "6a", ["плачу", "плачешь", "плачет", "плачем", "плачете", "плачут"]);
    six("писать", "6c", ["пишу", "пишешь", "пишет", "пишем", "пишете", "пишут"]);
}

#[test]
fn the_consonant_stems_conjugate_where_the_spelling_shows_them() {
    six("лезть", "7a", ["лезу", "лезешь", "лезет", "лезем", "лезете", "лезут"]);
    six("везти", "7b/b", ["везу", "везёшь", "везёт", "везём", "везёте", "везут"]);
    six("тереть", "9b", ["тру", "трёшь", "трёт", "трём", "трёте", "трут"]);
    six("умереть", "9b/c(1)", ["умру", "умрёшь", "умрёт", "умрём", "умрёте", "умрут"]);
}

#[test]
fn the_tenth_class_writes_its_endings_soft() {
    six("колоть", "10c", ["колю", "колешь", "колет", "колем", "колете", "колют"]);
    six("молоть", "10c", ["мелю", "мелешь", "мелет", "мелем", "мелете", "мелют"]);
}

#[test]
fn the_glide_stems_write_their_vowel_into_the_letter() {
    six("бить", "11b", ["бью", "бьёшь", "бьёт", "бьём", "бьёте", "бьют"]);
    six("мыть", "12a", ["мою", "моешь", "моет", "моем", "моете", "моют"]);
    six("петь", "12b", ["пою", "поёшь", "поёт", "поём", "поёте", "поют"]);
    six("гнить", "12b/c", ["гнию", "гниёшь", "гниёт", "гниём", "гниёте", "гниют"]);
    six("давать", "13b", ["даю", "даёшь", "даёт", "даём", "даёте", "дают"]);
}

#[test]
fn the_growing_classes_grow_their_letter() {
    six("стать", "15a", ["стану", "станешь", "станет", "станем", "станете", "станут"]);
    six("жить", "16b/c", ["живу", "живёшь", "живёт", "живём", "живёте", "живут"]);
    six("выжить", "16a", ["выживу", "выживешь", "выживет", "выживем", "выживете", "выживут"]);
}

#[test]
fn stated_what_the_index_does_not_state_is_refused() {
    assert_eq!(cell("печь", "8b/b", Person::First, Number::Singular), None);
    assert_eq!(cell("жать", "14b", Person::First, Number::Singular), None);
    assert_eq!(cell("звать", "6°b/c", Person::First, Number::Singular), None);
    assert_eq!(cell("нести", "7b/b", Person::First, Number::Singular), None);
    assert_eq!(cell("вбить", "11*b", Person::First, Number::Singular), None);
    assert_eq!(cell("дать", "^b/c'", Person::First, Number::Singular), None);
    assert_eq!(cell("лгать", "6°b/c^", Person::First, Number::Singular), None);
    assert_eq!(cell("сыпать", "6a^", Person::First, Number::Singular), None);
    assert_eq!(cell("хотеть", "5c'⌧^", Person::First, Number::Singular), None);
}

#[test]
fn the_x_touches_no_finite_form() {
    assert_eq!(cell("длить", "4bX", Person::First, Number::Singular).as_deref(), Some("длю"));
    assert_eq!(cell("длить", "4bX", Person::Second, Number::Singular).as_deref(), Some("длишь"));
}

#[test]
fn stated_a_reflexive_verb_carries_its_particle_in_every_cell() {
    let held = stated_index("6b");
    let first = VerbForm::Present { person: Person::First, number: Number::Singular };
    let second = VerbForm::Present { person: Person::Second, number: Number::Singular };
    let they = VerbForm::Present { person: Person::Third, number: Number::Plural };
    assert_eq!(stated::written("смеяться", held, first, true).as_deref(), Some("смеюсь"));
    assert_eq!(stated::written("смеяться", held, second, true).as_deref(), Some("смеёшься"));
    assert_eq!(stated::written("смеяться", held, they, true).as_deref(), Some("смеются"));
    assert_eq!(
        stated::written("смеяться", held, VerbForm::Imperative(Number::Singular), true).as_deref(),
        Some("смейся")
    );
    assert_eq!(
        stated::written("смеяться", held, VerbForm::Past(Bare::Singular(Gender::Feminine)), true)
            .as_deref(),
        Some("смеялась")
    );
    assert_eq!(stated::written("смеяться", held, VerbForm::Infinitive, true).as_deref(), Some("смеяться"));
}

#[test]
fn a_reflexive_imperative_bends_by_its_numeral() {
    let held = stated_index("6a(2)");
    assert_eq!(
        stated::written("высыпаться", held, VerbForm::Imperative(Number::Singular), true).as_deref(),
        Some("высыпься")
    );
    let taught = stated_index("4b");
    assert_eq!(
        stated::written("учиться", taught, VerbForm::Imperative(Number::Plural), true).as_deref(),
        Some("учитесь")
    );
}

#[test]
fn a_reflexive_past_writes_its_particle_after_the_ending() {
    let held = stated_index("14c/c\"");
    assert_eq!(
        stated::written("подняться", held, VerbForm::Past(Bare::Singular(Gender::Masculine)), true)
            .as_deref(),
        Some("поднялся")
    );
    assert_eq!(
        stated::written("подняться", held, VerbForm::Past(Bare::Singular(Gender::Feminine)), true)
            .as_deref(),
        Some("поднялась")
    );
}

#[test]
fn the_participles_are_not_this_modules_to_state() {
    let held = stated_index("1a");
    let form = VerbForm::Participle {
        voice: Voice::Active,
        tense: Tense::Present,
        form: Participle::Short(Bare::Plural),
    };
    assert_eq!(stated::written("читать", held, form, false), None);
    assert_eq!(stated::written("читать", held, VerbForm::Adverbial(Tense::Present), false), None);
}

fn stem_of(infinitive: &str, written: &str) -> Option<String> {
    stem::present(infinitive, stated_index(written))
}

#[test]
fn the_derivable_classes_derive_their_stems() {
    assert_eq!(stem_of("читать", "1a").as_deref(), Some("читай"));
    assert_eq!(stem_of("рисовать", "2a").as_deref(), Some("рису"));
    assert_eq!(stem_of("толкнуть", "3b").as_deref(), Some("толкн"));
    assert_eq!(stem_of("сохнуть", "3°a((5))(6)").as_deref(), Some("сохн"));
    assert_eq!(stem_of("говорить", "4b").as_deref(), Some("говор"));
    assert_eq!(stem_of("слышать", "5a").as_deref(), Some("слыш"));
    assert_eq!(stem_of("тереть", "9b").as_deref(), Some("тр"));
    assert_eq!(stem_of("давать", "13b").as_deref(), Some("дай"));
    assert_eq!(stem_of("стать", "15a").as_deref(), Some("стан"));
    assert_eq!(stem_of("жить", "16b/c").as_deref(), Some("жив"));
}

#[test]
fn the_sixth_class_swaps_or_keeps_its_glide() {
    assert_eq!(stem_of("писать", "6c").as_deref(), Some("пиш"));
    assert_eq!(stem_of("плакать", "6a").as_deref(), Some("плач"));
    assert_eq!(stem_of("искать", "6c").as_deref(), Some("ищ"));
    assert_eq!(stem_of("сыпать", "6a").as_deref(), Some("сыпл"));
    assert_eq!(stem_of("лаять", "6a").as_deref(), Some("лай"));
    assert_eq!(stem_of("смеять", "6b").as_deref(), Some("смей"));
}

#[test]
fn the_seventh_class_derives_only_what_its_spelling_shows() {
    assert_eq!(stem_of("везти", "7b/b").as_deref(), Some("вез"));
    assert_eq!(stem_of("лезть", "7a").as_deref(), Some("лез"));
    assert_eq!(stem_of("нести", "7b/b"), None);
    assert_eq!(stem_of("вести", "7b/b"), None);
}

#[test]
fn the_vowel_trading_classes_trade_as_the_table_states() {
    assert_eq!(stem_of("мыть", "12a").as_deref(), Some("мой"));
    assert_eq!(stem_of("дуть", "12a").as_deref(), Some("дуй"));
    assert_eq!(stem_of("гнить", "12b/c").as_deref(), Some("гний"));
    assert_eq!(stem_of("петь", "12b").as_deref(), Some("пой"));
    assert_eq!(stem_of("запеть", "12b").as_deref(), Some("запой"));
    assert_eq!(stem_of("брить", "12a").as_deref(), Some("брей"));
    assert_eq!(stem_of("бить", "11b").as_deref(), Some("бь"));
    assert_eq!(stem_of("колоть", "10c").as_deref(), Some("кол"));
    assert_eq!(stem_of("молоть", "10c").as_deref(), Some("мел"));
    assert_eq!(stem_of("помолоть", "10c").as_deref(), Some("помел"));
}

#[test]
fn what_needs_the_dictionarys_note_derives_nothing() {
    assert_eq!(stem_of("печь", "8b/b"), None);
    assert_eq!(stem_of("жать", "14b"), None);
    assert_eq!(stem_of("звать", "6°b/c"), None);
    assert_eq!(stem_of("втереть", "9*b"), None);
    assert_eq!(stem_of("дать", "^b/c'"), None);
}

fn past_cell(infinitive: &str, written: &str, held: Bare) -> Option<String> {
    gone::written(infinitive, stated_index(written), held)
}

fn spelled(infinitive: &str, written: &str, wanted: [&str; 4]) {
    let held = [
        past_cell(infinitive, written, Bare::Singular(Gender::Masculine)),
        past_cell(infinitive, written, Bare::Singular(Gender::Feminine)),
        past_cell(infinitive, written, Bare::Singular(Gender::Neuter)),
        past_cell(infinitive, written, Bare::Plural),
    ];
    let found: Vec<&str> = held.iter().map(|one| one.as_deref().unwrap_or("")).collect();
    assert_eq!(found, wanted, "{infinitive} {written}");
}

#[test]
fn a_vowel_stem_takes_the_four_endings() {
    spelled("делать", "1a", ["делал", "делала", "делало", "делали"]);
    spelled("толкнуть", "3b", ["толкнул", "толкнула", "толкнуло", "толкнули"]);
    spelled("спать", "5b/c", ["спал", "спала", "спало", "спали"]);
    spelled("молоть", "10c", ["молол", "молола", "мололо", "мололи"]);
    spelled("давать", "13b", ["давал", "давала", "давало", "давали"]);
}

#[test]
fn the_hidden_present_does_not_hide_the_past() {
    spelled("звать", "6°b/c", ["звал", "звала", "звало", "звали"]);
    spelled("жать", "14b", ["жал", "жала", "жало", "жали"]);
    spelled("начать", "14b/c(1)", ["начал", "начала", "начало", "начали"]);
    spelled("взять", "14b/c'", ["взял", "взяла", "взяло", "взяли"]);
    spelled("жить", "16b/c", ["жил", "жила", "жило", "жили"]);
    spelled("пить", "11b/c", ["пил", "пила", "пило", "пили"]);
    spelled("вбить", "11*b", ["вбил", "вбила", "вбило", "вбили"]);
}

#[test]
fn a_ringed_third_class_drops_what_the_masculine_may_keep() {
    spelled("ввязнуть", "3°a", ["ввяз", "ввязла", "ввязло", "ввязли"]);
    spelled("гаснуть", "3°a((5))(6)", ["гас", "гасла", "гасло", "гасли"]);
    assert_eq!(past_cell("сохнуть", "3°a(5)", Bare::Singular(Gender::Masculine)).as_deref(), Some("сохнул"));
    assert_eq!(past_cell("сохнуть", "3°a(5)", Bare::Singular(Gender::Feminine)).as_deref(), Some("сохла"));
}

#[test]
fn the_masculine_under_b_writes_its_yo_and_drops_its_l() {
    spelled("везти", "7b/b", ["вёз", "везла", "везло", "везли"]);
    spelled("лезть", "7a", ["лез", "лезла", "лезло", "лезли"]);
}

#[test]
fn the_ninth_class_keeps_e_where_the_stress_has_left_it() {
    spelled("тереть", "9b", ["тёр", "тёрла", "тёрло", "тёрли"]);
    spelled("втереть", "9*b", ["втёр", "втёрла", "втёрло", "втёрли"]);
    spelled("умереть", "9b/c(1)", ["умер", "умерла", "умерло", "умерли"]);
}

#[test]
fn gone_what_the_index_does_not_state_is_refused() {
    assert_eq!(past_cell("печь", "8b/b", Bare::Plural), None);
    assert_eq!(past_cell("нести", "7b/b", Bare::Plural), None);
    assert_eq!(past_cell("вести", "7b/b", Bare::Plural), None);
    assert_eq!(past_cell("есть", "^b", Bare::Plural), None);
}

#[test]
fn the_common_gender_is_read_as_the_masculine() {
    assert_eq!(past_cell("читать", "1a", Bare::Plural).as_deref(), Some("читали"));
    assert_eq!(past_cell("читать", "1a", Bare::Singular(Gender::Common)).as_deref(), Some("читал"));
}

fn one(infinitive: &str, written: &str) -> Option<String> {
    bid(infinitive, written, Number::Singular)
}

fn bid(infinitive: &str, written: &str, number: Number) -> Option<String> {
    bidden::written(infinitive, stated_index(written), number)
}

#[test]
fn a_vowel_stem_takes_the_glide_whatever_the_scheme() {
    assert_eq!(one("читать", "1a").as_deref(), Some("читай"));
    assert_eq!(bid("читать", "1a", Number::Plural).as_deref(), Some("читайте"));
    assert_eq!(one("рисовать", "2a").as_deref(), Some("рисуй"));
    assert_eq!(one("ковать", "2b").as_deref(), Some("куй"));
    assert_eq!(one("мыть", "12a").as_deref(), Some("мой"));
    assert_eq!(one("петь", "12b").as_deref(), Some("пой"));
    assert_eq!(one("брить", "12a").as_deref(), Some("брей"));
}

#[test]
fn a_stressed_ending_writes_the_vowel() {
    assert_eq!(one("толкнуть", "3b").as_deref(), Some("толкни"));
    assert_eq!(one("тянуть", "3c").as_deref(), Some("тяни"));
    assert_eq!(one("говорить", "4b").as_deref(), Some("говори"));
    assert_eq!(one("просить", "4c").as_deref(), Some("проси"));
    assert_eq!(one("гореть", "5b").as_deref(), Some("гори"));
    assert_eq!(one("смотреть", "5c").as_deref(), Some("смотри"));
    assert_eq!(one("писать", "6c").as_deref(), Some("пиши"));
    assert_eq!(one("везти", "7b/b").as_deref(), Some("вези"));
    assert_eq!(one("жить", "16b/c").as_deref(), Some("живи"));
    assert_eq!(one("колоть", "10c").as_deref(), Some("коли"));
    assert_eq!(one("молоть", "10c").as_deref(), Some("мели"));
}

#[test]
fn a_stem_stressed_consonant_is_closed_by_its_own_shape() {
    assert_eq!(one("ставить", "4a").as_deref(), Some("ставь"));
    assert_eq!(one("плакать", "6a").as_deref(), Some("плачь"));
    assert_eq!(one("лезть", "7a").as_deref(), Some("лезь"));
    assert_eq!(one("стать", "15a").as_deref(), Some("стань"));
    assert_eq!(one("прыгнуть", "3a").as_deref(), Some("прыгни"));
}

#[test]
fn the_ending_stressed_schemes_write_the_vowel_over_a_cluster() {
    assert_eq!(one("тереть", "9b").as_deref(), Some("три"));
    assert_eq!(one("умереть", "9b/c(1)").as_deref(), Some("умри"));
    assert_eq!(one("спать", "5b/c").as_deref(), Some("спи"));
}

#[test]
fn the_stated_labial_root_sheds_its_letter_and_the_rest_keep_it() {
    assert_eq!(one("насыпать", "6a").as_deref(), Some("насыпь"));
    assert_eq!(bid("насыпать", "6a", Number::Plural).as_deref(), Some("насыпьте"));
    assert_eq!(one("колебать", "6a").as_deref(), Some("колебли"));
    assert_eq!(one("дремать", "6c").as_deref(), Some("дремли"));
    assert_eq!(one("трепать", "6c").as_deref(), Some("трепли"));
}

#[test]
fn the_second_numeral_softens_the_vowel_the_default_writes() {
    assert_eq!(one("плюнуть", "3a(2)").as_deref(), Some("плюнь"));
    assert_eq!(one("вынуть", "3a(2)").as_deref(), Some("вынь"));
    assert_eq!(one("выстроить", "4a(2)").as_deref(), Some("выстрой"));
    assert_eq!(one("высыпать", "6a(2)").as_deref(), Some("высыпь"));
    assert_eq!(one("выдвинуть", "3a((3))").as_deref(), Some("выдвинь"));
}

#[test]
fn the_third_numeral_parts_the_singular_from_the_plural() {
    assert_eq!(one("вылезти", "7a(3)").as_deref(), Some("вылези"));
    assert_eq!(bid("вылезти", "7a(3)", Number::Plural).as_deref(), Some("вылезьте"));
    assert_eq!(one("сахарить", "4a(3)").as_deref(), Some("сахари"));
    assert_eq!(bid("сахарить", "4a(3)", Number::Plural).as_deref(), Some("сахарьте"));
}

#[test]
fn the_eleventh_and_thirteenth_classes_build_their_own_cell() {
    assert_eq!(one("бить", "11b").as_deref(), Some("бей"));
    assert_eq!(one("пить", "11b/c").as_deref(), Some("пей"));
    assert_eq!(one("вбить", "11*b").as_deref(), Some("вбей"));
    assert_eq!(one("давать", "13b").as_deref(), Some("давай"));
    assert_eq!(bid("давать", "13b", Number::Plural).as_deref(), Some("давайте"));
}

#[test]
fn bidden_what_the_index_does_not_state_is_refused() {
    assert_eq!(one("печь", "8b/b"), None);
    assert_eq!(one("жать", "14b"), None);
    assert_eq!(one("звать", "6°b/c"), None);
    assert_eq!(one("втереть", "9*b"), None);
}

#[test]
fn the_stated_root_is_soft_bare_and_under_prefixes() {
    assert!(soft("сыпать", stated_index("6a")));
    assert!(soft("насыпать", stated_index("6a")));
    assert!(soft("рассыпать", stated_index("6a")));
}

#[test]
fn its_neighbours_and_its_end_stressed_kin_are_not() {
    assert!(!soft("колебать", stated_index("6a")));
    assert!(!soft("зыбать", stated_index("6a")));
    assert!(!soft("трепать", stated_index("6c")));
    assert!(!soft("сыпать", stated_index("6b")));
    assert!(!soft("сыпать", stated_index("4a")));
    assert!(!soft("шептать", stated_index("6c")));
}

#[test]
fn only_the_grown_labial_sheds_its_letter() {
    assert_eq!(shed(String::from("сыпл"), stated_index("6a")), "сып");
    assert_eq!(shed(String::from("колебл"), stated_index("6a")), "колеб");
    assert_eq!(shed(String::from("стел"), stated_index("6a")), "стел");
    assert_eq!(shed(String::from("сыпл"), stated_index("4a")), "сыпл");
    assert_eq!(shed(String::from("пиш"), stated_index("6a")), "пиш");
}

#[test]
fn reading_a_stated_form_reads_back_with_the_diaeresis_dropped() {
    let found = reading::cells("везешь", "везти", stated_index("7b/b"));
    assert!(found.contains(&Cell {
        tense: Tense::Present,
        person: Some(Person::Second),
        gender: None,
        number: Number::Singular
    }));
}

#[test]
fn the_past_masculine_reads_back_through_its_yo() {
    let found = reading::cells("вёз", "везти", stated_index("7b/b"));
    assert!(found.contains(&Cell {
        tense: Tense::Past,
        person: None,
        gender: Some(Gender::Masculine),
        number: Number::Singular
    }));
}

#[test]
fn what_the_index_does_not_state_reads_into_no_cell() {
    assert_eq!(reading::cells("несёшь", "нести", stated_index("7b/b")), Vec::new());
    assert_eq!(reading::cells("лжёшь", "лгать", stated_index("6°b/c^")), Vec::new());
}

#[test]
fn a_form_reads_back_into_every_cell_that_writes_it() {
    let found = rusem::grammar::conjugation::reading::cells("читаешь", "читать");
    assert_eq!(
        found,
        vec![Cell { tense: Tense::Present, person: Some(Person::Second), gender: None, number: Number::Singular }]
    );
    let imperative = rusem::grammar::conjugation::reading::cells("читайте", "читать");
    assert_eq!(
        imperative,
        vec![Cell { tense: Tense::Present, person: None, gender: None, number: Number::Plural }]
    );
}

#[test]
fn the_dictionary_form_of_each_participle() {
    use_participles();
}

fn use_participles() {
    assert_eq!(dictionary("читать", Voice::Active, Tense::Present).as_deref(), Some("читающий"));
    assert_eq!(dictionary("читать", Voice::Active, Tense::Past).as_deref(), Some("читавший"));
    assert_eq!(dictionary("читать", Voice::Passive, Tense::Present).as_deref(), Some("читаемый"));
    assert_eq!(dictionary("читать", Voice::Passive, Tense::Past).as_deref(), Some("читанный"));
    assert_eq!(dictionary("любить", Voice::Passive, Tense::Past), None);
    assert_eq!(dictionary("читать", Voice::Active, Tense::Future), None);
}
