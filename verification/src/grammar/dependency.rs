//! What one word asks of another it is joined with: a dependent that agrees
//! with its head, a word a preposition governs, a predicate said of its
//! subject.

pub mod governed;
pub mod predicate;

use vstd::prelude::*;

use crate::grammar::case::Case;
use crate::grammar::form::verb::{Participle, VerbForm};
use crate::grammar::form::{Adjectival, Agreed, Form};
use crate::grammar::number::Number;

verus! {

/// The cell a form agrees in: a noun, a pronoun, a full adjective and a full
/// participle have one; every other form agrees in nothing.
#[verifier::allow_in_spec]
pub fn agreeing(form: Form) -> Option<Agreed>
    returns
        match form {
            Form::Noun(held) => Some(held),
            Form::Pronoun(held) => Some(held),
            Form::Adjective(Adjectival::Full(held)) => Some(held),
            Form::Verb(VerbForm::Participle { form: Participle::Full(held), .. }) => Some(held),
            _ => None,
        },
{
    match form {
        Form::Noun(held) => Some(held),
        Form::Pronoun(held) => Some(held),
        Form::Adjective(Adjectival::Full(held)) => Some(held),
        Form::Verb(VerbForm::Participle { form: Participle::Full(held), .. }) => Some(held),
        _ => None,
    }
}

/// Whether two cells agree: the same case, the second prepositional taken as
/// the first, the same number, and in the singular the same gender.
pub open spec fn same_cell(head: Agreed, dependent: Agreed) -> bool {
    &&& head.case().merged() == dependent.case().merged()
    &&& head.number() == dependent.number()
    &&& (head.number() is Singular ==> head.gender() == dependent.gender())
}

/// Whether a dependent agrees with its head.
pub open spec fn agrees_with(head: Form, dependent: Form) -> bool {
    match (agreeing(head), agreeing(dependent)) {
        (Some(above), Some(under)) => same_cell(above, under),
        _ => false,
    }
}

/// Reports whether two cells agree.
fn same(head: Agreed, dependent: Agreed) -> (res: bool)
    ensures
        res == same_cell(head, dependent),
{
    if head.case().merged() != dependent.case().merged() {
        return false;
    }
    if head.number() != dependent.number() {
        return false;
    }
    if matches!(head.number(), Number::Plural) {
        return true;
    }
    head.gender() == dependent.gender()
}

/// Reports whether a dependent agrees with its head: both stand in a cell,
/// and the cells are one. A form that states no cell agrees with nothing.
pub fn agrees(head: Form, dependent: Form) -> (res: bool)
    ensures
        res == agrees_with(head, dependent),
{
    match (agreeing(head), agreeing(dependent)) {
        (Some(above), Some(under)) => same(above, under),
        _ => false,
    }
}

/// The case a form stands in, the partitive read as the genitive and the
/// locative as the prepositional; none for a form that states no case.
pub fn case_of(form: Form) -> (res: Option<Case>)
    ensures
        res == match form.case() {
            Some(held) => Some(held.merged()),
            None => None,
        },
{
    match form.case() {
        Some(held) => Some(held.merged()),
        None => None,
    }
}

/// Agreement runs both ways: a dependent agrees with its head exactly when
/// the head agrees with it.
pub proof fn agreement_is_symmetric(head: Form, dependent: Form)
    ensures
        agrees_with(head, dependent) == agrees_with(dependent, head),
{
}

/// Every form that stands in a cell agrees with itself, and a form that
/// stands in none agrees with nothing.
pub proof fn agreement_is_reflexive(form: Form)
    ensures
        agrees_with(form, form) == (agreeing(form) is Some),
{
}

/// Agreement carries over: two dependents that agree with one head agree
/// with each other.
pub proof fn agreement_is_transitive(head: Form, first: Form, second: Form)
    requires
        agrees_with(head, first),
        agrees_with(head, second),
    ensures
        agrees_with(first, second),
{
}

} // verus!
