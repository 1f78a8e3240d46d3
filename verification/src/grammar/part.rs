//! Part of speech: the class a word belongs to.

use vstd::prelude::*;

verus! {

/// Part of speech.
#[derive(Debug, Clone, Copy, PartialEq, Eq, PartialOrd, Ord, Hash, Structural)]
pub enum PartOfSpeech {
    /// Noun.
    Noun,
    /// Adjective, full form.
    Adjective,
    /// Adjective, short form.
    ShortAdjective,
    /// Comparative degree.
    Comparative,
    /// Verb, finite form.
    Verb,
    /// Verb, infinitive.
    Infinitive,
    /// Participle, full form.
    Participle,
    /// Participle, short form.
    ShortParticiple,
    /// Adverbial participle.
    AdverbialParticiple,
    /// Numeral.
    Numeral,
    /// Adverb.
    Adverb,
    /// Pronoun used as a noun.
    Pronoun,
    /// Predicative.
    Predicative,
    /// Preposition.
    Preposition,
    /// Conjunction.
    Conjunction,
    /// Particle.
    Particle,
    /// Interjection.
    Interjection,
}

impl PartOfSpeech {
    /// Reports whether the part of speech carries lexical meaning worth looking
    /// up in the lexicon: every class but the pronoun and the five function
    /// words.
    #[verifier::allow_in_spec]
    pub fn is_content(self) -> bool
        returns
            !(self is Pronoun || self is Preposition || self is Conjunction || self is Particle
                || self is Interjection),
    {
        match self {
            PartOfSpeech::Noun
            | PartOfSpeech::Adjective
            | PartOfSpeech::ShortAdjective
            | PartOfSpeech::Comparative
            | PartOfSpeech::Verb
            | PartOfSpeech::Infinitive
            | PartOfSpeech::Participle
            | PartOfSpeech::ShortParticiple
            | PartOfSpeech::AdverbialParticiple
            | PartOfSpeech::Numeral
            | PartOfSpeech::Adverb
            | PartOfSpeech::Predicative => true,
            _ => false,
        }
    }

    /// Reports whether forms of this part of speech can head a predicate
    /// frame: the verbal forms, the predicative and the short adjective.
    #[verifier::allow_in_spec]
    pub fn is_predicative(self) -> bool
        returns
            self is Verb || self is Infinitive || self is Participle || self is ShortParticiple
                || self is AdverbialParticiple || self is Predicative || self is ShortAdjective,
    {
        match self {
            PartOfSpeech::Verb
            | PartOfSpeech::Infinitive
            | PartOfSpeech::Participle
            | PartOfSpeech::ShortParticiple
            | PartOfSpeech::AdverbialParticiple
            | PartOfSpeech::Predicative
            | PartOfSpeech::ShortAdjective => true,
            _ => false,
        }
    }
}

} // verus!
