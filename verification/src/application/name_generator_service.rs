use crate::domain::ports::{DomainError, WordRepository};
use crate::domain::{Adjective, CoolName, NameGenerator, Noun};
use std::sync::Arc;
use vstd::prelude::*;

verus! {

/// Puts a name together from an adjective that was picked and the outcome
/// of the pick of a noun. A pick that failed is handed on as it is.
pub fn compose(adjective: Adjective, noun: Result<Noun, DomainError>) -> (made: Result<
    CoolName,
    DomainError,
>)
    ensures
        match noun {
            Ok(picked) => made matches Ok(name) && name@ == (adjective@, picked@),
            Err(error) => made == Err::<CoolName, DomainError>(error),
        },
{
    match noun {
        Ok(noun) => Ok(CoolName::new(adjective, noun)),
        Err(error) => Err(error),
    }
}

/// Makes names from the words of one source: a random adjective, then a
/// random noun.
pub struct NameGeneratorService<R: WordRepository + ?Sized> {
    repository: Arc<R>,
}

impl<R: WordRepository + ?Sized> NameGeneratorService<R> {
    /// Whether the source behind the service answers for what it holds.
    pub closed spec fn modelled(&self) -> bool {
        self.repository.modelled()
    }

    /// The adjectives of the source behind the service.
    pub closed spec fn adjectives(&self) -> Seq<Seq<char>> {
        self.repository.adjectives()
    }

    /// The nouns of the source behind the service.
    pub closed spec fn nouns(&self) -> Seq<Seq<char>> {
        self.repository.nouns()
    }

    pub fn new(repository: Arc<R>) -> (service: Self)
        ensures
            service.modelled() == repository.modelled(),
            service.adjectives() == repository.adjectives(),
            service.nouns() == repository.nouns(),
    {
        NameGeneratorService { repository }
    }
}

impl<R: WordRepository + ?Sized> NameGenerator for NameGeneratorService<R> {
    /// Picks an adjective, then a noun, and puts the two together as
    /// `compose` does. Where the pick of the adjective failed, that is the
    /// outcome, and no noun is picked.
    ///
    /// Over a source that answers for what it holds, the outcome is known
    /// but for the choice. Without adjectives that is the error, whatever
    /// the nouns are; with adjectives and without nouns, that is the error;
    /// with words of both kinds the name is made of one of each.
    fn generate(&self) -> (made: Result<CoolName, DomainError>)
        ensures
            self.modelled() ==> if self.adjectives().len() == 0 {
                made matches Err(DomainError::NoAdjectivesAvailable)
            } else if self.nouns().len() == 0 {
                made matches Err(DomainError::NoNounsAvailable)
            } else {
                made matches Ok(name) && self.adjectives().contains(name@.0)
                    && self.nouns().contains(name@.1)
            },
    {
        match self.repository.get_random_adjective() {
            Ok(adjective) => compose(adjective, self.repository.get_random_noun()),
            Err(error) => Err(error),
        }
    }
}

} // verus!
