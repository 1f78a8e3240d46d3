//! Every category a form realizes at once, and what agreement between two of
//! them means.

use vstd::prelude::*;

use super::{
    aspect::{Aspect, Transitivity, Voice},
    case::Case,
    gender::{Animacy, Gender},
    number::Number,
    part::PartOfSpeech,
    tense::{Mood, Person, Tense},
};

verus! {

/// A full grammatical description of one word form.
///
/// Absent categories are absent, not defaulted: a verb has no case, an
/// infinitive has no person, and "not applicable" and "not yet known" are the
/// same to a checker — no constraint.
#[derive(Debug, Clone, Copy, PartialEq, Eq, Hash, Default)]
pub struct GrammarTag {
    /// Part of speech, absent when the analyzer could not commit to one.
    pub part_of_speech: Option<PartOfSpeech>,
    /// Case of a nominal form.
    pub case: Option<Case>,
    /// Number of a nominal or verbal form.
    pub number: Option<Number>,
    /// Gender of a nominal form or a past-tense verb.
    pub gender: Option<Gender>,
    /// Animacy of a nominal.
    pub animacy: Option<Animacy>,
    /// Aspect of a verbal form.
    pub aspect: Option<Aspect>,
    /// Tense of a verbal form.
    pub tense: Option<Tense>,
    /// Mood of a verbal form.
    pub mood: Option<Mood>,
    /// Person of a verbal form.
    pub person: Option<Person>,
    /// Transitivity of a verb.
    pub transitivity: Option<Transitivity>,
    /// Voice of a participle.
    pub voice: Option<Voice>,
}

/// Whether two stated categories leave room for agreement: only two stated
/// and different values clash.
pub open spec fn compatible<T>(left: Option<T>, right: Option<T>) -> bool {
    match (left, right) {
        (Some(l), Some(r)) => l == r,
        _ => true,
    }
}

/// A stated case, counted the way cases are compared.
pub open spec fn merged_case(case: Option<Case>) -> Option<Case> {
    match case {
        Some(held) => Some(held.merged()),
        None => None,
    }
}

/// Whether two tags leave room for agreement: case, counted as the case it
/// merges into, number, gender and person, each checked only where both
/// tags state it.
pub open spec fn tags_agree(left: GrammarTag, right: GrammarTag) -> bool {
    compatible(merged_case(left.case), merged_case(right.case)) && compatible(left.number, right.number)
        && compatible(left.gender, right.gender) && compatible(left.person, right.person)
}

impl GrammarTag {
    /// An empty description, constraining nothing.
    pub open spec fn none() -> GrammarTag {
        GrammarTag {
            part_of_speech: None,
            case: None,
            number: None,
            gender: None,
            animacy: None,
            aspect: None,
            tense: None,
            mood: None,
            person: None,
            transitivity: None,
            voice: None,
        }
    }

    /// An empty description, constraining nothing.
    pub fn empty() -> (res: GrammarTag)
        ensures
            res == GrammarTag::none(),
    {
        GrammarTag {
        part_of_speech: None,
        case: None,
        number: None,
        gender: None,
        animacy: None,
        aspect: None,
        tense: None,
        mood: None,
        person: None,
        transitivity: None,
        voice: None,
        }
    }

    /// Builds an empty description with a part of speech set.
    pub fn of(part_of_speech: PartOfSpeech) -> (res: GrammarTag)
        ensures
            res == (GrammarTag { part_of_speech: Some(part_of_speech), ..GrammarTag::none() }),
    {
        GrammarTag {
            part_of_speech: Some(part_of_speech),
            case: None,
            number: None,
            gender: None,
            animacy: None,
            aspect: None,
            tense: None,
            mood: None,
            person: None,
            transitivity: None,
            voice: None,
        }
    }

    /// Reports whether two forms may agree in the categories both of them
    /// state: case (each counted as the case it merges into), number, gender
    /// and person. A category is checked only when both sides carry it.
    pub fn agrees_with(&self, other: &GrammarTag) -> (res: bool)
        ensures
            res == tags_agree(*self, *other),
    {
        let cases = match (self.case, other.case) {
            (Some(l), Some(r)) => l.merged() == r.merged(),
            _ => true,
        };
        let numbers = match (self.number, other.number) {
            (Some(l), Some(r)) => l == r,
            _ => true,
        };
        let genders = match (self.gender, other.gender) {
            (Some(l), Some(r)) => l == r,
            _ => true,
        };
        let persons = match (self.person, other.person) {
            (Some(l), Some(r)) => l == r,
            _ => true,
        };
        cases && numbers && genders && persons
    }
}


/// Agreement between tags runs both ways.
pub proof fn tag_agreement_is_symmetric(left: GrammarTag, right: GrammarTag)
    ensures
        tags_agree(left, right) == tags_agree(right, left),
{
}

/// Every tag agrees with itself, and a tag that states nothing agrees with
/// every tag.
pub proof fn tag_agreement_is_reflexive(tag: GrammarTag)
    ensures
        tags_agree(tag, tag),
        tags_agree(GrammarTag::none(), tag),
{
}

} // verus!
