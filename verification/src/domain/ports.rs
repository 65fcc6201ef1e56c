use super::entities::{Adjective, CoolName, Noun};
use vstd::prelude::*;
use vstd::std_specs::cmp::PartialEqSpecImpl;

verus! {

/// Why no name could be produced.
#[derive(Debug)]
pub enum DomainError {
    /// The adjective collection is empty.
    NoAdjectivesAvailable,
    /// The noun collection is empty.
    NoNounsAvailable,
    /// A word list could not be read; the field says why.
    LoadError(String),
}

impl DomainError {
    /// The text that describes the error to a person.
    pub open spec fn message(&self) -> Seq<char> {
        match self {
            DomainError::NoAdjectivesAvailable => "No adjectives available"@,
            DomainError::NoNounsAvailable => "No nouns available"@,
            DomainError::LoadError(detail) => "Failed to load words: "@ + detail@,
        }
    }

    /// The text that describes the error, as an owned string.
    pub fn to_string(&self) -> (text: String)
        ensures
            text@ == self.message(),
    {
        match self {
            DomainError::NoAdjectivesAvailable => String::from_str("No adjectives available"),
            DomainError::NoNounsAvailable => String::from_str("No nouns available"),
            DomainError::LoadError(detail) => String::from_str("Failed to load words: ").concat(
                detail.as_str(),
            ),
        }
    }
}

impl Clone for DomainError {
    fn clone(&self) -> (copy: Self)
        ensures
            copy == *self,
    {
        match self {
            DomainError::NoAdjectivesAvailable => DomainError::NoAdjectivesAvailable,
            DomainError::NoNounsAvailable => DomainError::NoNounsAvailable,
            DomainError::LoadError(detail) => DomainError::LoadError(detail.clone()),
        }
    }
}

impl PartialEq for DomainError {
    fn eq(&self, other: &Self) -> (same: bool) {
        match (self, other) {
            (DomainError::NoAdjectivesAvailable, DomainError::NoAdjectivesAvailable) => true,
            (DomainError::NoNounsAvailable, DomainError::NoNounsAvailable) => true,
            (DomainError::LoadError(mine), DomainError::LoadError(theirs)) => *mine == *theirs,
            _ => false,
        }
    }
}

impl PartialEqSpecImpl for DomainError {
    open spec fn obeys_eq_spec() -> bool {
        true
    }

    open spec fn eq_spec(&self, other: &Self) -> bool {
        match (self, other) {
            (DomainError::NoAdjectivesAvailable, DomainError::NoAdjectivesAvailable) => true,
            (DomainError::NoNounsAvailable, DomainError::NoNounsAvailable) => true,
            (DomainError::LoadError(mine), DomainError::LoadError(theirs)) => mine@ == theirs@,
            _ => false,
        }
    }
}

/// A source of words: two collections, and a random pick from each.
///
/// A source may answer for what it holds: it then says so in `modelled`,
/// names its collections in `adjectives` and `nouns`, and keeps to the
/// contracts below. A pick from such a source fails only when the collection
/// is empty, and what it returns is one of the collection's words. Of a
/// source that does not answer for what it holds, nothing is claimed.
pub trait WordRepository: Send + Sync {
    /// Whether the source answers for what it holds.
    open spec fn modelled(&self) -> bool {
        false
    }

    /// The adjectives the source holds, in order.
    open spec fn adjectives(&self) -> Seq<Seq<char>> {
        Seq::empty()
    }

    /// The nouns the source holds, in order.
    open spec fn nouns(&self) -> Seq<Seq<char>> {
        Seq::empty()
    }

    fn get_random_adjective(&self) -> (picked: Result<Adjective, DomainError>)
        ensures
            self.modelled() ==> match picked {
                Ok(adjective) => self.adjectives().contains(adjective@),
                Err(error) => error is NoAdjectivesAvailable && self.adjectives().len() == 0,
            },
    ;

    fn get_random_noun(&self) -> (picked: Result<Noun, DomainError>)
        ensures
            self.modelled() ==> match picked {
                Ok(noun) => self.nouns().contains(noun@),
                Err(error) => error is NoNounsAvailable && self.nouns().len() == 0,
            },
    ;

    fn adjectives_count(&self) -> (count: usize)
        ensures
            self.modelled() ==> count == self.adjectives().len(),
    ;

    fn nouns_count(&self) -> (count: usize)
        ensures
            self.modelled() ==> count == self.nouns().len(),
    ;
}

/// Anything that can produce a name on request.
pub trait NameGenerator: Send + Sync {
    fn generate(&self) -> Result<CoolName, DomainError>;
}

} // verus!
