//! The forms of a Russian verb, each stating what that form states.
//!
//! Six shapes, and no two of them state the same categories: the infinitive
//! states nothing, the present person and number, the past gender and number,
//! the imperative number, the participle a case, and the adverbial participle
//! only a tense.

use vstd::prelude::*;

use crate::grammar::{
    form::{Agreed, Bare},
    Case, Gender, Mood, Number, PartOfSpeech, Person, Tense, Voice,
};

verus! {

/// A participle, which is a verb that declines.
#[derive(Debug, Clone, Copy, PartialEq, Eq, Hash, Structural)]
pub enum Participle {
    /// Declined, standing with the noun it describes: `читающий`.
    Full(Agreed),
    /// Predicative, said of the noun: `прочитан`, `прочитана`.
    Short(Bare),
}

impl Participle {
    /// The case the participle stands in, absent in the short form.
    #[verifier::allow_in_spec]
    pub fn case(self) -> Option<Case>
        returns
            match self {
                Participle::Full(held) => Some(held.case()),
                Participle::Short(_) => None,
            },
    {
        match self {
            Participle::Full(held) => Some(held.case()),
            Participle::Short(_) => None,
        }
    }

    /// The gender the participle agrees in, absent in the plural.
    #[verifier::allow_in_spec]
    pub fn gender(self) -> Option<Gender>
        returns
            match self {
                Participle::Full(held) => held.gender(),
                Participle::Short(held) => held.gender(),
            },
    {
        match self {
            Participle::Full(held) => held.gender(),
            Participle::Short(held) => held.gender(),
        }
    }

    /// How many the participle states.
    #[verifier::allow_in_spec]
    pub fn number(self) -> Number
        returns
            match self {
                Participle::Full(held) => held.number(),
                Participle::Short(held) => held.number(),
            },
    {
        match self {
            Participle::Full(held) => held.number(),
            Participle::Short(held) => held.number(),
        }
    }
}

/// One form of a verb.
#[derive(Debug, Clone, Copy, PartialEq, Eq, Hash, Structural)]
pub enum VerbForm {
    /// The dictionary form, which states nothing: `читать`.
    Infinitive,
    /// The present, or the simple future of a perfective verb: person and
    /// number, and no gender.
    Present {
        /// Who acts.
        person: Person,
        /// How many act.
        number: Number,
    },
    /// The past: gender and number, and no person.
    Past(Bare),
    /// The imperative: `читай`, `читайте`.
    Imperative(Number),
    /// A participle, with its voice and its tense.
    Participle {
        /// Whether the one described acts or is acted on.
        voice: Voice,
        /// When, relative to the sentence.
        tense: Tense,
        /// How the participle stands.
        form: Participle,
    },
    /// An adverbial participle, which declines nothing: `читая`, `прочитав`.
    Adverbial(Tense),
}

impl VerbForm {
    /// The part of speech this form is read as.
    #[verifier::allow_in_spec]
    pub fn part_of_speech(self) -> PartOfSpeech
        returns
            match self {
                VerbForm::Infinitive => PartOfSpeech::Infinitive,
                VerbForm::Present { .. } => PartOfSpeech::Verb,
                VerbForm::Past(_) => PartOfSpeech::Verb,
                VerbForm::Imperative(_) => PartOfSpeech::Verb,
                VerbForm::Participle { form: Participle::Short(_), .. } => PartOfSpeech::ShortParticiple,
                VerbForm::Participle { .. } => PartOfSpeech::Participle,
                VerbForm::Adverbial(_) => PartOfSpeech::AdverbialParticiple,
            },
    {
        match self {
            VerbForm::Infinitive => PartOfSpeech::Infinitive,
            VerbForm::Present { .. } | VerbForm::Past(_) | VerbForm::Imperative(_) => {
                PartOfSpeech::Verb
            },
            VerbForm::Participle { form: Participle::Short(_), .. } => PartOfSpeech::ShortParticiple,
            VerbForm::Participle { .. } => PartOfSpeech::Participle,
            VerbForm::Adverbial(_) => PartOfSpeech::AdverbialParticiple,
        }
    }

    /// The case this form stands in, which only a full participle does.
    #[verifier::allow_in_spec]
    pub fn case(self) -> Option<Case>
        returns
            match self {
                VerbForm::Participle { form, .. } => form.case(),
                _ => None,
            },
    {
        match self {
            VerbForm::Participle { form, .. } => form.case(),
            _ => None,
        }
    }

    /// How many this form states, absent in the infinitive and the adverbial.
    #[verifier::allow_in_spec]
    pub fn number(self) -> Option<Number>
        returns
            match self {
                VerbForm::Present { number, .. } => Some(number),
                VerbForm::Imperative(number) => Some(number),
                VerbForm::Past(held) => Some(held.number()),
                VerbForm::Participle { form, .. } => Some(form.number()),
                VerbForm::Infinitive => None,
                VerbForm::Adverbial(_) => None,
            },
    {
        match self {
            VerbForm::Present { number, .. } | VerbForm::Imperative(number) => Some(number),
            VerbForm::Past(held) => Some(held.number()),
            VerbForm::Participle { form, .. } => Some(form.number()),
            VerbForm::Infinitive | VerbForm::Adverbial(_) => None,
        }
    }

    /// The gender this form agrees in, which only the past and the participle
    /// state, and only in the singular.
    #[verifier::allow_in_spec]
    pub fn gender(self) -> Option<Gender>
        returns
            match self {
                VerbForm::Past(held) => held.gender(),
                VerbForm::Participle { form, .. } => form.gender(),
                _ => None,
            },
    {
        match self {
            VerbForm::Past(held) => held.gender(),
            VerbForm::Participle { form, .. } => form.gender(),
            _ => None,
        }
    }

    /// Who acts, which only the finite present states.
    #[verifier::allow_in_spec]
    pub fn person(self) -> Option<Person>
        returns
            match self {
                VerbForm::Present { person, .. } => Some(person),
                _ => None,
            },
    {
        match self {
            VerbForm::Present { person, .. } => Some(person),
            _ => None,
        }
    }

    /// When the form places what it states.
    #[verifier::allow_in_spec]
    pub fn tense(self) -> Option<Tense>
        returns
            match self {
                VerbForm::Present { .. } => Some(Tense::Present),
                VerbForm::Past(_) => Some(Tense::Past),
                VerbForm::Participle { tense, .. } => Some(tense),
                VerbForm::Adverbial(tense) => Some(tense),
                VerbForm::Infinitive => None,
                VerbForm::Imperative(_) => None,
            },
    {
        match self {
            VerbForm::Present { .. } => Some(Tense::Present),
            VerbForm::Past(_) => Some(Tense::Past),
            VerbForm::Participle { tense, .. } | VerbForm::Adverbial(tense) => Some(tense),
            VerbForm::Infinitive | VerbForm::Imperative(_) => None,
        }
    }

    /// The mood the form is in.
    #[verifier::allow_in_spec]
    pub fn mood(self) -> Option<Mood>
        returns
            match self {
                VerbForm::Present { .. } => Some(Mood::Indicative),
                VerbForm::Past(_) => Some(Mood::Indicative),
                VerbForm::Imperative(_) => Some(Mood::Imperative),
                _ => None,
            },
    {
        match self {
            VerbForm::Present { .. } | VerbForm::Past(_) => Some(Mood::Indicative),
            VerbForm::Imperative(_) => Some(Mood::Imperative),
            _ => None,
        }
    }

    /// Whether the one described acts or is acted on, which only a participle
    /// states.
    #[verifier::allow_in_spec]
    pub fn voice(self) -> Option<Voice>
        returns
            match self {
                VerbForm::Participle { voice, .. } => Some(voice),
                _ => None,
            },
    {
        match self {
            VerbForm::Participle { voice, .. } => Some(voice),
            _ => None,
        }
    }
}

} // verus!
