use crate::domain::ports::{DomainError, WordRepository};
use crate::domain::{Adjective, Noun};
use crate::random::pick_one;
use crate::wordlist::{parse_words, word_list};
use vstd::prelude::*;

verus! {

/// What reading one word list comes to: the words of the text that was read,
/// or the reason why nothing was read, with its preface.
pub open spec fn loaded(read: Result<String, String>) -> Result<Seq<Seq<char>>, Seq<char>> {
    match read {
        Ok(content) => Ok(word_list(content@)),
        Err(detail) => Err("Failed to read file: "@ + detail@),
    }
}

/// The adjective for a pick from the adjectives; none was picked only where
/// there is none to pick.
pub fn adjective_from(picked: Option<&String>) -> (adjective: Result<Adjective, DomainError>)
    ensures
        match picked {
            Some(word) => adjective matches Ok(a) && a@ == word@,
            None => adjective matches Err(DomainError::NoAdjectivesAvailable),
        },
{
    match picked {
        Some(word) => Ok(Adjective::new(word.clone())),
        None => Err(DomainError::NoAdjectivesAvailable),
    }
}

/// The noun for a pick from the nouns; none was picked only where there is
/// none to pick.
pub fn noun_from(picked: Option<&String>) -> (noun: Result<Noun, DomainError>)
    ensures
        match picked {
            Some(word) => noun matches Ok(n) && n@ == word@,
            None => noun matches Err(DomainError::NoNounsAvailable),
        },
{
    match picked {
        Some(word) => Ok(Noun::new(word.clone())),
        None => Err(DomainError::NoNounsAvailable),
    }
}

/// A word source read from two word lists, one word per line.
pub struct FileWordRepository {
    adjectives: Vec<String>,
    nouns: Vec<String>,
}

impl FileWordRepository {
    /// Neither collection is ever empty.
    #[verifier::type_invariant]
    spec fn filled(&self) -> bool {
        self.adjectives@.len() > 0 && self.nouns@.len() > 0
    }

    /// Builds the source from what reading the two lists gave: for each, the
    /// text of the list, or the reason why it could not be read.
    ///
    /// A list that could not be read is a load error, the adjectives' first.
    /// Otherwise a list without a word is an error too, again the
    /// adjectives' first.
    pub fn new(adjectives: Result<String, String>, nouns: Result<String, String>) -> (made: Result<
        Self,
        DomainError,
    >)
        ensures
            match (loaded(adjectives), loaded(nouns)) {
                (Err(detail), _) => made matches Err(DomainError::LoadError(d)) && d@ == detail,
                (Ok(_), Err(detail)) => made matches Err(DomainError::LoadError(d)) && d@
                    == detail,
                (Ok(first), Ok(second)) => if first.len() == 0 {
                    made matches Err(DomainError::NoAdjectivesAvailable)
                } else if second.len() == 0 {
                    made matches Err(DomainError::NoNounsAvailable)
                } else {
                    made matches Ok(repository) && repository.adjectives() == first
                        && repository.nouns() == second
                },
            },
    {
        let adjectives = match Self::load_words(adjectives) {
            Ok(words) => words,
            Err(error) => {
                return Err(error);
            },
        };
        let nouns = match Self::load_words(nouns) {
            Ok(words) => words,
            Err(error) => {
                return Err(error);
            },
        };
        if adjectives.len() == 0 {
            return Err(DomainError::NoAdjectivesAvailable);
        }
        if nouns.len() == 0 {
            return Err(DomainError::NoNounsAvailable);
        }
        Ok(FileWordRepository { adjectives, nouns })
    }

    /// The words of one list, from what reading it gave.
    pub fn load_words(read: Result<String, String>) -> (words: Result<Vec<String>, DomainError>)
        ensures
            match loaded(read) {
                Ok(list) => words matches Ok(w) && w.deep_view() == list,
                Err(detail) => words matches Err(DomainError::LoadError(d)) && d@ == detail,
            },
    {
        match read {
            Ok(content) => Ok(parse_words(content.as_str())),
            Err(detail) => Err(
                DomainError::LoadError(
                    String::from_str("Failed to read file: ").concat(detail.as_str()),
                ),
            ),
        }
    }
}

impl WordRepository for FileWordRepository {
    open spec fn modelled(&self) -> bool {
        true
    }

    closed spec fn adjectives(&self) -> Seq<Seq<char>> {
        self.adjectives.deep_view()
    }

    closed spec fn nouns(&self) -> Seq<Seq<char>> {
        self.nouns.deep_view()
    }

    fn get_random_adjective(&self) -> (picked: Result<Adjective, DomainError>)
        ensures
            picked is Ok,
    {
        proof {
            use_type_invariant(self);
        }
        let word = pick_one(self.adjectives.as_slice());
        proof {
            let at = self.adjectives@.index_of(*word->0);
            assert(self.adjectives.deep_view()[at] == word->0@);
        }
        adjective_from(word)
    }

    fn get_random_noun(&self) -> (picked: Result<Noun, DomainError>)
        ensures
            picked is Ok,
    {
        proof {
            use_type_invariant(self);
        }
        let word = pick_one(self.nouns.as_slice());
        proof {
            let at = self.nouns@.index_of(*word->0);
            assert(self.nouns.deep_view()[at] == word->0@);
        }
        noun_from(word)
    }

    fn adjectives_count(&self) -> (count: usize)
        ensures
            count > 0,
    {
        proof {
            use_type_invariant(self);
        }
        self.adjectives.len()
    }

    fn nouns_count(&self) -> (count: usize)
        ensures
            count > 0,
    {
        proof {
            use_type_invariant(self);
        }
        self.nouns.len()
    }
}

} // verus!
