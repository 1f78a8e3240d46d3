//! Reading an adapter's tag into the form it describes.
//!
//! An analyzer answers in a flat tag of optional categories, and everything
//! above wants a form that states what it can state and nothing else. The
//! reading refuses as well as translates: a tag that puts a verb in the
//! genitive describes nothing in Russian and comes back as nothing.

use vstd::prelude::*;

use crate::grammar::{
    form::{
        verb::{Participle, VerbForm},
        Adjectival, Agreed, Bare, Counted, Form,
    },
    GrammarTag, Mood, Number, PartOfSpeech, Tense,
};

verus! {

/// Case and number, with gender where the singular states one; a plural's
/// gender is dropped, a singular without one is refused.
pub open spec fn agreed_of(tag: GrammarTag) -> Option<Agreed> {
    match (tag.case, tag.number) {
        (Some(case), Some(Number::Plural)) => Some(Agreed::Plural { case }),
        (Some(case), Some(Number::Singular)) => match tag.gender {
            Some(gender) => Some(Agreed::Singular { case, gender }),
            None => None,
        },
        _ => None,
    }
}

/// Number, with gender where the singular states one, and no case: a tag that
/// states a case is refused.
pub open spec fn bare_of(tag: GrammarTag) -> Option<Bare> {
    if tag.case is Some {
        None
    } else {
        match tag.number {
            Some(Number::Plural) => Some(Bare::Plural),
            Some(Number::Singular) => match tag.gender {
                Some(gender) => Some(Bare::Singular(gender)),
                None => None,
            },
            None => None,
        }
    }
}

/// A numeral: a cardinal when no number is stated, an agreeing one otherwise.
pub open spec fn counted_of(tag: GrammarTag) -> Option<Counted> {
    if tag.number is None {
        match tag.case {
            Some(case) => Some(Counted::Cardinal(case)),
            None => None,
        }
    } else {
        match agreed_of(tag) {
            Some(held) => Some(Counted::Agreeing(held)),
            None => None,
        }
    }
}

/// A finite verb: refused in a case; the imperative by its mood, the past by
/// its tense, the present otherwise.
pub open spec fn finite_of(tag: GrammarTag) -> Option<VerbForm> {
    if tag.case is Some {
        None
    } else if tag.mood == Some(Mood::Imperative) {
        match tag.number {
            Some(number) => Some(VerbForm::Imperative(number)),
            None => None,
        }
    } else if tag.tense == Some(Tense::Past) {
        match bare_of(tag) {
            Some(held) => Some(VerbForm::Past(held)),
            None => None,
        }
    } else {
        match (tag.person, tag.number) {
            (Some(person), Some(number)) => Some(VerbForm::Present { person, number }),
            _ => None,
        }
    }
}

/// One form of a verb, by the part of speech the tag names.
pub open spec fn verbal_of(tag: GrammarTag, part: PartOfSpeech) -> Option<VerbForm> {
    match part {
        PartOfSpeech::Infinitive => if tag.case is Some || tag.person is Some || tag.number is Some {
            None
        } else {
            Some(VerbForm::Infinitive)
        },
        PartOfSpeech::Participle => match (tag.voice, tag.tense, agreed_of(tag)) {
            (Some(voice), Some(tense), Some(held)) => Some(
                VerbForm::Participle { voice, tense, form: Participle::Full(held) },
            ),
            _ => None,
        },
        PartOfSpeech::ShortParticiple => match (tag.voice, tag.tense, bare_of(tag)) {
            (Some(voice), Some(tense), Some(held)) => Some(
                VerbForm::Participle { voice, tense, form: Participle::Short(held) },
            ),
            _ => None,
        },
        PartOfSpeech::AdverbialParticiple => if tag.case is Some || tag.person is Some {
            None
        } else {
            match tag.tense {
                Some(tense) => Some(VerbForm::Adverbial(tense)),
                None => None,
            }
        },
        _ => finite_of(tag),
    }
}

/// The form a tag describes, or nothing where it describes no form of Russian.
pub open spec fn form_of(tag: GrammarTag) -> Option<Form> {
    match tag.part_of_speech {
        None => None,
        Some(part) => match part {
            PartOfSpeech::Noun => match agreed_of(tag) {
                Some(held) => Some(Form::Noun(held)),
                None => None,
            },
            PartOfSpeech::Numeral => match counted_of(tag) {
                Some(held) => Some(Form::Numeral(held)),
                None => None,
            },
            PartOfSpeech::Pronoun => match agreed_of(tag) {
                Some(held) => Some(Form::Pronoun(held)),
                None => None,
            },
            PartOfSpeech::Adjective => match agreed_of(tag) {
                Some(held) => Some(Form::Adjective(Adjectival::Full(held))),
                None => None,
            },
            PartOfSpeech::ShortAdjective => match bare_of(tag) {
                Some(held) => Some(Form::Adjective(Adjectival::Short(held))),
                None => None,
            },
            PartOfSpeech::Comparative => Some(Form::Adjective(Adjectival::Compared)),
            PartOfSpeech::Adverb => Some(Form::Adverb),
            PartOfSpeech::Predicative => Some(Form::Predicative),
            PartOfSpeech::Preposition => Some(Form::Preposition),
            PartOfSpeech::Conjunction => Some(Form::Conjunction),
            PartOfSpeech::Particle => Some(Form::Particle),
            PartOfSpeech::Interjection => Some(Form::Interjection),
            _ => match verbal_of(tag, part) {
                Some(held) => Some(Form::Verb(held)),
                None => None,
            },
        },
    }
}

/// Reads a tag into the form it describes, or refuses it.
pub fn form(tag: &GrammarTag) -> (res: Option<Form>)
    ensures
        res == form_of(*tag),
{
    let part = tag.part_of_speech?;
    match part {
        PartOfSpeech::Noun => match agreed(tag) {
            Some(held) => Some(Form::Noun(held)),
            None => None,
        },
        PartOfSpeech::Numeral => match counted(tag) {
            Some(held) => Some(Form::Numeral(held)),
            None => None,
        },
        PartOfSpeech::Pronoun => match agreed(tag) {
            Some(held) => Some(Form::Pronoun(held)),
            None => None,
        },
        PartOfSpeech::Adjective => match agreed(tag) {
            Some(held) => Some(Form::Adjective(Adjectival::Full(held))),
            None => None,
        },
        PartOfSpeech::ShortAdjective => match bare(tag) {
            Some(held) => Some(Form::Adjective(Adjectival::Short(held))),
            None => None,
        },
        PartOfSpeech::Comparative => Some(Form::Adjective(Adjectival::Compared)),
        PartOfSpeech::Adverb => Some(Form::Adverb),
        PartOfSpeech::Predicative => Some(Form::Predicative),
        PartOfSpeech::Preposition => Some(Form::Preposition),
        PartOfSpeech::Conjunction => Some(Form::Conjunction),
        PartOfSpeech::Particle => Some(Form::Particle),
        PartOfSpeech::Interjection => Some(Form::Interjection),
        PartOfSpeech::Infinitive
        | PartOfSpeech::Verb
        | PartOfSpeech::Participle
        | PartOfSpeech::ShortParticiple
        | PartOfSpeech::AdverbialParticiple => match verbal(tag, part) {
            Some(held) => Some(Form::Verb(held)),
            None => None,
        },
    }
}

/// A numeral, which states a number only when it has one.
fn counted(tag: &GrammarTag) -> (res: Option<Counted>)
    ensures
        res == counted_of(*tag),
{
    if tag.number.is_none() {
        return Some(Counted::Cardinal(tag.case?));
    }
    match agreed(tag) {
        Some(held) => Some(Counted::Agreeing(held)),
        None => None,
    }
}

/// Case and number, with gender where the singular states one.
fn agreed(tag: &GrammarTag) -> (res: Option<Agreed>)
    ensures
        res == agreed_of(*tag),
{
    let case = tag.case?;
    match tag.number? {
        Number::Plural => Some(Agreed::Plural { case }),
        Number::Singular => Some(Agreed::Singular { case, gender: tag.gender? }),
    }
}

/// Number, with gender where the singular states one, and no case.
fn bare(tag: &GrammarTag) -> (res: Option<Bare>)
    ensures
        res == bare_of(*tag),
{
    if tag.case.is_some() {
        return None;
    }
    match tag.number? {
        Number::Plural => Some(Bare::Plural),
        Number::Singular => Some(Bare::Singular(tag.gender?)),
    }
}

/// One form of a verb.
fn verbal(tag: &GrammarTag, part: PartOfSpeech) -> (res: Option<VerbForm>)
    ensures
        res == verbal_of(*tag, part),
{
    match part {
        PartOfSpeech::Infinitive => infinitive(tag),
        PartOfSpeech::Participle => {
            let voice = tag.voice?;
            let tense = tag.tense?;
            let held = agreed(tag)?;
            Some(VerbForm::Participle { voice, tense, form: Participle::Full(held) })
        },
        PartOfSpeech::ShortParticiple => {
            let voice = tag.voice?;
            let tense = tag.tense?;
            let held = bare(tag)?;
            Some(VerbForm::Participle { voice, tense, form: Participle::Short(held) })
        },
        PartOfSpeech::AdverbialParticiple => adverbial(tag),
        _ => finite(tag),
    }
}

/// The infinitive, which states nothing and refuses anything stated.
fn infinitive(tag: &GrammarTag) -> (res: Option<VerbForm>)
    ensures
        res == verbal_of(*tag, PartOfSpeech::Infinitive),
{
    if tag.case.is_some() || tag.person.is_some() || tag.number.is_some() {
        return None;
    }
    Some(VerbForm::Infinitive)
}

/// The adverbial participle, which states a tense and nothing else.
fn adverbial(tag: &GrammarTag) -> (res: Option<VerbForm>)
    ensures
        res == verbal_of(*tag, PartOfSpeech::AdverbialParticiple),
{
    if tag.case.is_some() || tag.person.is_some() {
        return None;
    }
    Some(VerbForm::Adverbial(tag.tense?))
}

/// A finite verb: the present, the past or the imperative.
fn finite(tag: &GrammarTag) -> (res: Option<VerbForm>)
    ensures
        res == finite_of(*tag),
{
    if tag.case.is_some() {
        return None;
    }
    if let Some(Mood::Imperative) = tag.mood {
        return Some(VerbForm::Imperative(tag.number?));
    }
    if let Some(Tense::Past) = tag.tense {
        return match bare(tag) {
            Some(held) => Some(VerbForm::Past(held)),
            None => None,
        };
    }
    let person = tag.person?;
    let number = tag.number?;
    Some(VerbForm::Present { person, number })
}

/// A form read back from the tag it writes is the form itself: the tag keeps
/// every category the form states, and the reading builds the form from
/// exactly those.
pub proof fn form_reads_back_from_its_tag(held: Form)
    ensures
        form_of(held.written()) == Some(held),
{
}

/// What a tag is refused for: no part of speech; a case on a finite verb, an
/// infinitive or a short adjective; a person on an infinitive; a singular
/// noun with no gender. And a past tag that states a person is read as the
/// past all the same, with the person dropped: the past has none.
pub proof fn what_a_tag_is_refused_for(tag: GrammarTag)
    ensures
        tag.part_of_speech is None ==> form_of(tag) is None,
        tag.case is Some && (tag.part_of_speech == Some(PartOfSpeech::Verb) || tag.part_of_speech
            == Some(PartOfSpeech::Infinitive) || tag.part_of_speech == Some(
            PartOfSpeech::ShortAdjective,
        )) ==> form_of(tag) is None,
        tag.person is Some && tag.part_of_speech == Some(PartOfSpeech::Infinitive) ==> form_of(tag)
            is None,
        tag.part_of_speech == Some(PartOfSpeech::Noun) && tag.number == Some(Number::Singular)
            && tag.gender is None ==> form_of(tag) is None,
        tag.part_of_speech == Some(PartOfSpeech::Verb) && tag.case is None && tag.mood != Some(
            Mood::Imperative,
        ) && tag.tense == Some(Tense::Past) && bare_of(tag) is Some ==> form_of(tag) == Some(
            Form::Verb(VerbForm::Past(bare_of(tag).unwrap())),
        ) && form_of(tag).unwrap().written().person is None,
{
}

} // verus!
