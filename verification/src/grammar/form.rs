//! What one written form states, and only what it can state.
//!
//! [`super::tag::GrammarTag`] holds every category at once and leaves each one
//! optional, which is what an adapter needs. It is not what the language is: a
//! verb has no case, a plural states no gender, an infinitive has no person.
//! Here a form is a sum: each variant carries the categories that form has and
//! no others, so the combinations the language does not make cannot be built.

pub mod read;
pub mod verb;

use vstd::prelude::*;

use super::{Animacy, Case, Gender, GrammarTag, Mood, Number, PartOfSpeech, Person, Tense, Voice};

verus! {

/// Case and number, with gender where the language states one.
#[derive(Debug, Clone, Copy, PartialEq, Eq, Hash, Structural)]
pub enum Agreed {
    /// One, in a case and of a gender.
    Singular {
        /// The case the form stands in.
        case: Case,
        /// The gender the form agrees in.
        gender: Gender,
    },
    /// More than one, in a case.
    Plural {
        /// The case the form stands in.
        case: Case,
    },
}

impl Agreed {
    /// The case the form stands in.
    #[verifier::allow_in_spec]
    pub fn case(self) -> Case
        returns
            match self {
                Agreed::Singular { case, .. } => case,
                Agreed::Plural { case } => case,
            },
    {
        match self {
            Agreed::Singular { case, .. } => case,
            Agreed::Plural { case } => case,
        }
    }

    /// The gender the form agrees in, absent in the plural.
    #[verifier::allow_in_spec]
    pub fn gender(self) -> Option<Gender>
        returns
            match self {
                Agreed::Singular { gender, .. } => Some(gender),
                Agreed::Plural { .. } => None,
            },
    {
        match self {
            Agreed::Singular { gender, .. } => Some(gender),
            Agreed::Plural { .. } => None,
        }
    }

    /// How many the form states.
    #[verifier::allow_in_spec]
    pub fn number(self) -> Number
        returns
            match self {
                Agreed::Singular { .. } => Number::Singular,
                Agreed::Plural { .. } => Number::Plural,
            },
    {
        match self {
            Agreed::Singular { .. } => Number::Singular,
            Agreed::Plural { .. } => Number::Plural,
        }
    }
}

/// Number, with gender where the language states one, and no case at all:
/// the shape of the short adjective, the short participle and the past tense.
#[derive(Debug, Clone, Copy, PartialEq, Eq, Hash, Structural)]
pub enum Bare {
    /// One, of a gender.
    Singular(Gender),
    /// More than one.
    Plural,
}

impl Bare {
    /// The gender the form agrees in, absent in the plural.
    #[verifier::allow_in_spec]
    pub fn gender(self) -> Option<Gender>
        returns
            match self {
                Bare::Singular(held) => Some(held),
                Bare::Plural => None,
            },
    {
        match self {
            Bare::Singular(held) => Some(held),
            Bare::Plural => None,
        }
    }

    /// How many the form states.
    #[verifier::allow_in_spec]
    pub fn number(self) -> Number
        returns
            match self {
                Bare::Singular(_) => Number::Singular,
                Bare::Plural => Number::Plural,
            },
    {
        match self {
            Bare::Singular(_) => Number::Singular,
            Bare::Plural => Number::Plural,
        }
    }
}

/// How a numeral stands: a cardinal states a case and no number, a numeral
/// that agrees states both.
#[derive(Debug, Clone, Copy, PartialEq, Eq, Hash, Structural)]
pub enum Counted {
    /// A cardinal that states a case and nothing else.
    Cardinal(Case),
    /// A numeral that agrees like an adjective.
    Agreeing(Agreed),
}

impl Counted {
    /// The case the numeral stands in.
    #[verifier::allow_in_spec]
    pub fn case(self) -> Case
        returns
            match self {
                Counted::Cardinal(held) => held,
                Counted::Agreeing(held) => held.case(),
            },
    {
        match self {
            Counted::Cardinal(held) => held,
            Counted::Agreeing(held) => held.case(),
        }
    }

    /// How many the numeral states, absent in a bare cardinal.
    #[verifier::allow_in_spec]
    pub fn number(self) -> Option<Number>
        returns
            match self {
                Counted::Cardinal(_) => None,
                Counted::Agreeing(held) => Some(held.number()),
            },
    {
        match self {
            Counted::Cardinal(_) => None,
            Counted::Agreeing(held) => Some(held.number()),
        }
    }

    /// The gender the numeral agrees in, absent in a bare cardinal.
    #[verifier::allow_in_spec]
    pub fn gender(self) -> Option<Gender>
        returns
            match self {
                Counted::Cardinal(_) => None,
                Counted::Agreeing(held) => held.gender(),
            },
    {
        match self {
            Counted::Cardinal(_) => None,
            Counted::Agreeing(held) => held.gender(),
        }
    }
}

/// How an adjective stands.
#[derive(Debug, Clone, Copy, PartialEq, Eq, Hash, Structural)]
pub enum Adjectival {
    /// Declined, before or after the noun it describes: `красная`.
    Full(Agreed),
    /// Predicative, said of the noun rather than attached to it: `красна`.
    Short(Bare),
    /// Compared, and therefore not declined at all: `краснее`.
    Compared,
}

/// One written form of a Russian word, stating what that form can state.
#[derive(Debug, Clone, Copy, PartialEq, Eq, Hash, Structural)]
pub enum Form {
    /// A noun: a case and a number.
    Noun(Agreed),
    /// An adjective, a participle used as one, or an ordinal numeral.
    Adjective(Adjectival),
    /// A verb, in any of its forms.
    Verb(verb::VerbForm),
    /// A numeral, which counts like nothing else in the language.
    Numeral(Counted),
    /// A pronoun that stands in for a noun.
    Pronoun(Agreed),
    /// An adverb, which states nothing.
    Adverb,
    /// A predicative, which states nothing: `можно`, `надо`.
    Predicative,
    /// A preposition, which states nothing and governs a case.
    Preposition,
    /// A conjunction, which states nothing.
    Conjunction,
    /// A particle, which states nothing.
    Particle,
    /// An interjection, which states nothing.
    Interjection,
}

impl Form {
    /// The part of speech this form belongs to.
    #[verifier::allow_in_spec]
    pub fn part_of_speech(self) -> PartOfSpeech
        returns
            match self {
                Form::Noun(_) => PartOfSpeech::Noun,
                Form::Adjective(Adjectival::Short(_)) => PartOfSpeech::ShortAdjective,
                Form::Adjective(Adjectival::Compared) => PartOfSpeech::Comparative,
                Form::Adjective(Adjectival::Full(_)) => PartOfSpeech::Adjective,
                Form::Verb(held) => held.part_of_speech(),
                Form::Numeral(_) => PartOfSpeech::Numeral,
                Form::Pronoun(_) => PartOfSpeech::Pronoun,
                Form::Adverb => PartOfSpeech::Adverb,
                Form::Predicative => PartOfSpeech::Predicative,
                Form::Preposition => PartOfSpeech::Preposition,
                Form::Conjunction => PartOfSpeech::Conjunction,
                Form::Particle => PartOfSpeech::Particle,
                Form::Interjection => PartOfSpeech::Interjection,
            },
    {
        match self {
            Form::Noun(_) => PartOfSpeech::Noun,
            Form::Adjective(Adjectival::Short(_)) => PartOfSpeech::ShortAdjective,
            Form::Adjective(Adjectival::Compared) => PartOfSpeech::Comparative,
            Form::Adjective(Adjectival::Full(_)) => PartOfSpeech::Adjective,
            Form::Verb(held) => held.part_of_speech(),
            Form::Numeral(_) => PartOfSpeech::Numeral,
            Form::Pronoun(_) => PartOfSpeech::Pronoun,
            Form::Adverb => PartOfSpeech::Adverb,
            Form::Predicative => PartOfSpeech::Predicative,
            Form::Preposition => PartOfSpeech::Preposition,
            Form::Conjunction => PartOfSpeech::Conjunction,
            Form::Particle => PartOfSpeech::Particle,
            Form::Interjection => PartOfSpeech::Interjection,
        }
    }

    /// The case this form stands in, absent when it stands in none.
    #[verifier::allow_in_spec]
    pub fn case(self) -> Option<Case>
        returns
            match self {
                Form::Noun(held) => Some(held.case()),
                Form::Pronoun(held) => Some(held.case()),
                Form::Adjective(Adjectival::Full(held)) => Some(held.case()),
                Form::Numeral(held) => Some(held.case()),
                Form::Verb(held) => held.case(),
                _ => None,
            },
    {
        match self {
            Form::Noun(held) | Form::Pronoun(held) | Form::Adjective(Adjectival::Full(held)) => {
                Some(held.case())
            },
            Form::Numeral(held) => Some(held.case()),
            Form::Verb(held) => held.case(),
            _ => None,
        }
    }

    /// How many this form states, absent when it states none.
    #[verifier::allow_in_spec]
    pub fn number(self) -> Option<Number>
        returns
            match self {
                Form::Noun(held) => Some(held.number()),
                Form::Pronoun(held) => Some(held.number()),
                Form::Adjective(Adjectival::Full(held)) => Some(held.number()),
                Form::Numeral(held) => held.number(),
                Form::Adjective(Adjectival::Short(held)) => Some(held.number()),
                Form::Verb(held) => held.number(),
                _ => None,
            },
    {
        match self {
            Form::Noun(held) | Form::Pronoun(held) | Form::Adjective(Adjectival::Full(held)) => {
                Some(held.number())
            },
            Form::Numeral(held) => held.number(),
            Form::Adjective(Adjectival::Short(held)) => Some(held.number()),
            Form::Verb(held) => held.number(),
            _ => None,
        }
    }

    /// The gender this form agrees in, absent when it states none.
    #[verifier::allow_in_spec]
    pub fn gender(self) -> Option<Gender>
        returns
            match self {
                Form::Noun(held) => held.gender(),
                Form::Pronoun(held) => held.gender(),
                Form::Adjective(Adjectival::Full(held)) => held.gender(),
                Form::Numeral(held) => held.gender(),
                Form::Adjective(Adjectival::Short(held)) => held.gender(),
                Form::Verb(held) => held.gender(),
                _ => None,
            },
    {
        match self {
            Form::Noun(held) | Form::Pronoun(held) | Form::Adjective(Adjectival::Full(held)) => {
                held.gender()
            },
            Form::Numeral(held) => held.gender(),
            Form::Adjective(Adjectival::Short(held)) => held.gender(),
            Form::Verb(held) => held.gender(),
            _ => None,
        }
    }

    /// The tense this form states, absent outside the verb.
    #[verifier::allow_in_spec]
    pub fn tense(self) -> Option<Tense>
        returns
            match self {
                Form::Verb(held) => held.tense(),
                _ => None,
            },
    {
        match self {
            Form::Verb(held) => held.tense(),
            _ => None,
        }
    }

    /// The mood this form states, absent outside the verb.
    #[verifier::allow_in_spec]
    pub fn mood(self) -> Option<Mood>
        returns
            match self {
                Form::Verb(held) => held.mood(),
                _ => None,
            },
    {
        match self {
            Form::Verb(held) => held.mood(),
            _ => None,
        }
    }

    /// The person this form states, absent outside the finite verb.
    #[verifier::allow_in_spec]
    pub fn person(self) -> Option<Person>
        returns
            match self {
                Form::Verb(held) => held.person(),
                _ => None,
            },
    {
        match self {
            Form::Verb(held) => held.person(),
            _ => None,
        }
    }

    /// The voice this form states, absent outside the participle.
    #[verifier::allow_in_spec]
    pub fn voice(self) -> Option<Voice>
        returns
            match self {
                Form::Verb(held) => held.voice(),
                _ => None,
            },
    {
        match self {
            Form::Verb(held) => held.voice(),
            _ => None,
        }
    }

    /// The tag a form writes: its part of speech and every category it
    /// states, and nothing else.
    pub open spec fn written(self) -> GrammarTag {
        GrammarTag {
            part_of_speech: Some(self.part_of_speech()),
            case: self.case(),
            number: self.number(),
            gender: self.gender(),
            animacy: None,
            aspect: None,
            tense: self.tense(),
            mood: self.mood(),
            person: self.person(),
            transitivity: None,
            voice: self.voice(),
        }
    }

    /// This form as the tag an adapter speaks in.
    ///
    /// The categories a form does not state come out absent; those that belong
    /// to the word rather than the form — animacy, aspect, transitivity — are
    /// not here to be given and come out absent too.
    pub fn tag(self) -> (res: GrammarTag)
        ensures
            res == self.written(),
    {
        GrammarTag {
            part_of_speech: Some(self.part_of_speech()),
            case: self.case(),
            number: self.number(),
            gender: self.gender(),
            animacy: None,
            aspect: None,
            tense: self.tense(),
            mood: self.mood(),
            person: self.person(),
            transitivity: None,
            voice: self.voice(),
        }
    }
}

/// Reports whether an animacy can show in a case at all: it is only ever
/// visible in the accusative, where it decides between the nominative's form
/// and the genitive's.
#[verifier::allow_in_spec]
pub fn animacy_shows(case: Case, animacy: Animacy) -> bool
    returns
        case is Accusative,
{
    match case {
        Case::Accusative => true,
        _ => false,
    }
}

} // verus!
