//! The predicate said of a subject: a present in the subject's number and,
//! for a noun, in the third person; a past in its number and, in the
//! singular, its gender.

use vstd::prelude::*;

use super::agreeing;
use crate::grammar::form::verb::VerbForm;
use crate::grammar::form::{Bare, Form};
use crate::grammar::gender::Gender;
use crate::grammar::tense::Person;

verus! {

/// The person a subject speaks in: a noun is the third person; a pronoun's
/// person is not stated by its form.
#[verifier::allow_in_spec]
pub fn person_of(subject: Form) -> Option<Person>
    returns
        match subject {
            Form::Noun(_) => Some(Person::Third),
            _ => None,
        },
{
    match subject {
        Form::Noun(_) => Some(Person::Third),
        _ => None,
    }
}

/// Whether a past form's gender fits the subject's: the plural fits every
/// subject, a singular only a subject of its own gender among the three.
#[verifier::allow_in_spec]
pub fn genders(said: Bare, subject: Option<Gender>) -> bool
    returns
        match (said, subject) {
            (Bare::Plural, _) => true,
            (Bare::Singular(held), Some(stated)) => held == stated && !(held is Common),
            (Bare::Singular(_), None) => false,
        },
{
    match (said, subject) {
        (Bare::Plural, _) => true,
        (Bare::Singular(held), Some(stated)) => match (held, stated) {
            (Gender::Masculine, Gender::Masculine) => true,
            (Gender::Feminine, Gender::Feminine) => true,
            (Gender::Neuter, Gender::Neuter) => true,
            _ => false,
        },
        (Bare::Singular(_), None) => false,
    }
}

/// Whether a predicate is said of a subject.
pub open spec fn said(subject: Form, predicate: Form) -> bool {
    match (agreeing(subject), predicate) {
        (Some(held), Form::Verb(VerbForm::Present { person, number })) => number == held.number() && (
        match person_of(subject) {
            Some(speaking) => person == speaking,
            None => true,
        }),
        (Some(held), Form::Verb(VerbForm::Past(bare))) => bare.number() == held.number() && genders(
            bare,
            held.gender(),
        ),
        _ => false,
    }
}

/// Reports whether a predicate is said of a subject: `стол стоит`, `книга
/// лежала`, `они пришли`. A subject that stands in no cell, or a predicate
/// that is no present or past, is no pair.
pub fn said_of(subject: Form, predicate: Form) -> (res: bool)
    ensures
        res == said(subject, predicate),
{
    let held = match agreeing(subject) {
        Some(held) => held,
        None => return false,
    };
    match predicate {
        Form::Verb(VerbForm::Present { person, number }) => number == held.number() && match person_of(
            subject,
        ) {
            Some(speaking) => person == speaking,
            None => true,
        },
        Form::Verb(VerbForm::Past(bare)) => bare.number() == held.number() && genders(bare, held.gender()),
        _ => false,
    }
}

} // verus!
