use rusem::grammar::conjugation::index::circled::{numeral, Circled, Reach};
use rusem::grammar::conjugation::index::kind::Kind;
use rusem::grammar::conjugation::index::marks::{self, Tail};
use rusem::grammar::conjugation::index::scheme::{self, Scheme};
use rusem::grammar::conjugation::index::{read, VerbIndex};

fn stated(written: &str) -> VerbIndex {
    read(written).unwrap_or_else(|| unreachable!("a stated index"))
}

#[test]
fn a_missing_past_letter_is_scheme_a() {
    let held = stated("3b");
    assert_eq!(held.past, Scheme::A);
    assert_eq!(stated("5b/c").past, Scheme::C);
}

#[test]
fn the_ringed_class_keeps_its_numerals() {
    let held = stated("3°a((5))(6)");
    assert!(held.signs.ringed);
    assert_eq!(held.circled.masculine_kept, Some(Reach::Either));
    assert_eq!(held.circled.bygone_kept, Some(Reach::Whole));
    assert!(!held.noted);
}

#[test]
fn the_numerals_are_read_on_either_side_of_the_past() {
    assert_eq!(stated("7b/b(9)").circled.gerund_future, Some(Reach::Whole));
    assert_eq!(stated("16b/c((1))").circled.past_prefixed, Some(Reach::Either));
    assert_eq!(stated("4c(7)").circled.passive_stressed, Some(Reach::Whole));
}

#[test]
fn the_x_and_the_hat_are_read_apart() {
    let plain = stated("5c(4)X");
    assert!(plain.passiveless);
    assert!(!plain.noted);
    assert_eq!(plain.circled.acting_retracted, Some(Reach::Whole));

    let hatted = stated("6°b/cX^");
    assert!(hatted.passiveless);
    assert!(hatted.noted);
}

#[test]
fn an_isolated_verb_is_read_by_its_own_sign() {
    let held = stated("^b/c'");
    assert_eq!(held.kind, Kind::Isolated);
    assert_eq!(held.present, Scheme::B);
    assert_eq!(held.past, Scheme::CPrime);
}

#[test]
fn the_leaks_the_dump_carries_are_survived() {
    assert!(!stated("14*b/c/ru").noted);
    assert_eq!(stated("14*b/c/ru").past, Scheme::C);
    assert_eq!(stated("1а").present, Scheme::A);
    assert!(stated("6°b/cX1^").noted);
    assert!(stated("5c'⌧^").noted);
    assert!(stated("6°b/c-сяСВ^").noted);
}

#[test]
fn a_dual_paradigm_keeps_its_first_half_and_says_so() {
    let doubled = stated("6a//1а");
    assert_eq!(doubled.kind, Kind::Six);
    assert!(doubled.noted);
    assert!(stated("4c/4b").noted);
}

#[test]
fn what_is_no_index_at_all_is_refused() {
    assert_eq!(read("Спряжение"), None);
    assert_eq!(read("17a"), None);
    assert_eq!(read(""), None);
}

#[test]
fn a_number_past_a_byte_names_no_class() {
    assert_eq!(read("300a"), None);
    assert_eq!(stated("01a").kind, Kind::One);
    assert!(stated("14*b").signs.fleeting);
}

#[test]
fn every_digit_reads_back_to_itself() {
    for digit in 1..=16 {
        let held = Kind::of(digit).unwrap_or_else(|| unreachable!("a stated class"));
        assert_eq!(held.digit(), Some(digit));
    }
}

#[test]
fn a_digit_the_dictionary_does_not_use_names_nothing() {
    assert_eq!(Kind::of(0), None);
    assert_eq!(Kind::of(17), None);
}

#[test]
fn an_isolated_verb_has_no_digit() {
    assert_eq!(Kind::Isolated.digit(), None);
}

fn one(written: &str) -> Option<Circled> {
    let mut held = Circled::none();
    let (read, _) = numeral(written, 1, &mut held);
    if read {
        Some(held)
    } else {
        None
    }
}

#[test]
fn every_numeral_is_read_into_its_own_cell() {
    assert_eq!(one("(1)").and_then(|held| held.past_prefixed), Some(Reach::Whole));
    assert_eq!(one("(5)").and_then(|held| held.masculine_kept), Some(Reach::Whole));
    assert_eq!(one("(9)").and_then(|held| held.gerund_future), Some(Reach::Whole));
}

#[test]
fn circled_a_doubled_numeral_reaches_either_form() {
    assert_eq!(one("((7))").and_then(|held| held.passive_stressed), Some(Reach::Either));
    assert_eq!(one("((3))").and_then(|held| held.imperative_split), Some(Reach::Either));
}

#[test]
fn a_malformed_numeral_is_refused() {
    assert_eq!(one("(0)"), None);
    assert_eq!(one("(1"), None);
    assert_eq!(one("((5)"), None);
}

fn verb_tail(written: &str) -> Tail {
    marks::read(written, 0)
}

#[test]
fn the_past_scheme_is_read_off_its_slash() {
    assert_eq!(verb_tail("/b").past, Some(Scheme::B));
    assert_eq!(verb_tail("/c'").past, Some(Scheme::CPrime));
    assert_eq!(verb_tail("/c\"").past, Some(Scheme::CDouble));
    assert!(!verb_tail("/b").noted);
}

#[test]
fn a_numeral_stands_on_either_side_of_the_past() {
    let before = verb_tail("((5))(6)");
    assert_eq!(before.circled.masculine_kept, Some(Reach::Either));
    assert_eq!(before.circled.bygone_kept, Some(Reach::Whole));

    let after = verb_tail("/b(9)");
    assert_eq!(after.past, Some(Scheme::B));
    assert_eq!(after.circled.gerund_future, Some(Reach::Whole));
    assert!(!after.noted);
}

#[test]
fn the_x_is_read_and_its_one_off_variant_is_noted() {
    assert!(verb_tail("X").passiveless);
    assert!(!verb_tail("X").noted);
    assert!(verb_tail("X1").passiveless);
    assert!(verb_tail("X1").noted);
}

#[test]
fn a_dual_paradigm_is_noted_whole() {
    assert!(verb_tail("//4c").noted);
    assert!(verb_tail("/4b").noted);
    assert_eq!(verb_tail("/4b").past, None);
    assert_eq!(verb_tail("//4c(9)").circled, Circled::none());
}

#[test]
fn the_overriding_hat_is_noted() {
    let held = verb_tail("/cX^");
    assert_eq!(held.past, Some(Scheme::C));
    assert!(held.passiveless);
    assert!(held.noted);
}

#[test]
fn marks_the_yo_mark_is_read_off_its_comma() {
    assert!(verb_tail(", ё").yo);
    assert!(!verb_tail(", ё").noted);
    assert!(verb_tail(",x").noted);
}

#[test]
fn a_template_leak_is_noted() {
    assert!(verb_tail("/c-сяСВ^").noted);
    assert!(verb_tail("'⌧^").noted);
}

fn scheme_of(written: &str) -> Option<Scheme> {
    scheme::read(written, 0).map(|(held, _)| held)
}

#[test]
fn the_three_plain_letters_are_read() {
    assert_eq!(scheme_of("a"), Some(Scheme::A));
    assert_eq!(scheme_of("b"), Some(Scheme::B));
    assert_eq!(scheme_of("c"), Some(Scheme::C));
}

#[test]
fn the_primes_are_read_in_every_spelling() {
    assert_eq!(scheme_of("c'"), Some(Scheme::CPrime));
    assert_eq!(scheme_of("c′"), Some(Scheme::CPrime));
    assert_eq!(scheme_of("c\""), Some(Scheme::CDouble));
    assert_eq!(scheme_of("c''"), Some(Scheme::CDouble));
}

#[test]
fn the_cyrillic_letter_is_read_as_the_latin_one() {
    assert_eq!(scheme_of("а"), Some(Scheme::A));
}

#[test]
fn a_letter_outside_the_schemes_is_refused() {
    assert_eq!(scheme_of("d"), None);
    assert_eq!(scheme_of("a'"), None);
    assert_eq!(scheme_of(""), None);
}
