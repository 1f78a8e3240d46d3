//! The grammar of Russian: its categories, the forms that state them, and the
//! paradigms of the words that decline and conjugate.

pub mod aspect;
pub mod case;
pub mod gender;
pub mod number;
pub mod tense;

pub use self::{
    aspect::{Aspect, Transitivity, Voice},
    case::Case,
    gender::{Animacy, Gender},
    number::Number,
    tense::{Mood, Person, Tense},
};
pub mod part;
pub mod stem;
pub mod tag;

pub use self::{part::PartOfSpeech, tag::GrammarTag};
pub mod form;
pub mod closed;
pub mod conjugation;
pub mod declension;
pub mod dependency;
