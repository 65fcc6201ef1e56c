//! Random two-word names: an adjective and a noun joined by a hyphen.
//!
//! The crate offers the generator in two forms. [`NameGenerator`] keeps two
//! word lists and hands out names as plain strings. The modules `domain`,
//! `application`, `infrastructure` and `adapters` hold the same thing in
//! layers: a port for word sources, a service that composes names from any
//! source, a source read from word lists, and what the web front end decides.
//!
//! Nothing here reads a file or answers a request. Word lists come in as
//! text, or as the reason why there is no text, and a request is answered
//! with a value that says what to send.
//!
//! # What is assumed
//!
//! Every function of the crate is verified but four, which call what is
//! not: `random::pick_one` (the random choice of `rand`) and, in `text`,
//! `is_whitespace`, `to_lowercase` and `push_char` (`char::is_whitespace`,
//! `str::to_lowercase` and `String::push`). Their contracts are believed, not
//! proved. The first says that a pick from a slice is one of its elements.
//! The next two only give what they return a name, `text::is_white_space`
//! and `text::lowercase`, of which nothing more is known: what the crate
//! proves of trimmed or lower-case words it proves whatever they are.

pub mod adapters;
pub mod application;
pub mod domain;
pub mod infrastructure;
mod random;
pub mod text;
pub mod wordlist;

use crate::domain::entities::hyphenated;
use crate::random::pick_one;
use crate::wordlist::{lowered_word_list, parse_lowered_words};
use vstd::prelude::*;

verus! {

/// Why the generator could not be built, or could not make a name.
#[derive(Debug)]
pub enum GeneratorError {
    /// A word list could not be read; the field names the list and says why.
    FileReadError(String),
    /// The adjective list holds no word.
    NoAdjectivesAvailable,
    /// The noun list holds no word.
    NoNounsAvailable,
}

impl GeneratorError {
    /// The text that describes the error to a person.
    pub open spec fn message(&self) -> Seq<char> {
        match self {
            GeneratorError::FileReadError(detail) => "Failed to read file: "@ + detail@,
            GeneratorError::NoAdjectivesAvailable => "No adjectives available"@,
            GeneratorError::NoNounsAvailable => "No nouns available"@,
        }
    }

    /// The text that describes the error, as an owned string.
    pub fn to_string(&self) -> (text: String)
        ensures
            text@ == self.message(),
    {
        match self {
            GeneratorError::FileReadError(detail) => String::from_str(
                "Failed to read file: ",
            ).concat(detail.as_str()),
            GeneratorError::NoAdjectivesAvailable => String::from_str("No adjectives available"),
            GeneratorError::NoNounsAvailable => String::from_str("No nouns available"),
        }
    }
}

/// The name of the list the adjectives are read from.
pub const ADJECTIVES_FILE: &'static str = "adjectives.txt";

/// The name of the list the nouns are read from.
pub const NOUNS_FILE: &'static str = "nouns.txt";

/// What reading the list named `path` comes to: its words in lower case, or
/// the name of the list and the reason why it could not be read.
pub open spec fn loaded(path: Seq<char>, read: Result<String, String>) -> Result<
    Seq<Seq<char>>,
    Seq<char>,
> {
    match read {
        Ok(content) => Ok(lowered_word_list(content@)),
        Err(detail) => Err(path + ": "@ + detail@),
    }
}

/// The name for one pick from the adjectives and one from the nouns. A pick
/// that found nothing is an error, the adjective's first.
pub fn name_from(adjective: Option<&String>, noun: Option<&String>) -> (name: Result<
    String,
    GeneratorError,
>)
    ensures
        match (adjective, noun) {
            (None, _) => name matches Err(GeneratorError::NoAdjectivesAvailable),
            (Some(_), None) => name matches Err(GeneratorError::NoNounsAvailable),
            (Some(first), Some(second)) => name matches Ok(text) && text@ == hyphenated(
                first@,
                second@,
            ),
        },
{
    let first = match adjective {
        Some(word) => word,
        None => {
            return Err(GeneratorError::NoAdjectivesAvailable);
        },
    };
    let second = match noun {
        Some(word) => word,
        None => {
            return Err(GeneratorError::NoNounsAvailable);
        },
    };
    proof {
        reveal_strlit("-");
    }
    let text = String::from_str(first.as_str()).concat("-").concat(second.as_str());
    assert(text@ =~= hyphenated(first@, second@));
    Ok(text)
}

/// A generator of names over two word lists in lower case.
pub struct NameGenerator {
    adjectives: Vec<String>,
    nouns: Vec<String>,
}

impl NameGenerator {
    /// Neither list is ever empty.
    #[verifier::type_invariant]
    spec fn filled(&self) -> bool {
        self.adjectives@.len() > 0 && self.nouns@.len() > 0
    }

    /// The adjectives, in the order of their list.
    pub closed spec fn adjectives(&self) -> Seq<Seq<char>> {
        self.adjectives.deep_view()
    }

    /// The nouns, in the order of their list.
    pub closed spec fn nouns(&self) -> Seq<Seq<char>> {
        self.nouns.deep_view()
    }

    /// Builds the generator from what reading the two lists gave: for each,
    /// the text of the list, or the reason why it could not be read.
    ///
    /// A list that could not be read is an error, the adjectives' first.
    /// Otherwise a list without a word is an error too, again the
    /// adjectives' first.
    pub fn new(adjectives: Result<String, String>, nouns: Result<String, String>) -> (made: Result<
        Self,
        GeneratorError,
    >)
        ensures
            match (loaded(ADJECTIVES_FILE@, adjectives), loaded(NOUNS_FILE@, nouns)) {
                (Err(detail), _) => made matches Err(GeneratorError::FileReadError(d)) && d@
                    == detail,
                (Ok(_), Err(detail)) => made matches Err(GeneratorError::FileReadError(d)) && d@
                    == detail,
                (Ok(first), Ok(second)) => if first.len() == 0 {
                    made matches Err(GeneratorError::NoAdjectivesAvailable)
                } else if second.len() == 0 {
                    made matches Err(GeneratorError::NoNounsAvailable)
                } else {
                    made matches Ok(generator) && generator.adjectives() == first
                        && generator.nouns() == second
                },
            },
    {
        let adjectives = match Self::load_words(ADJECTIVES_FILE, adjectives) {
            Ok(words) => words,
            Err(error) => {
                return Err(error);
            },
        };
        let nouns = match Self::load_words(NOUNS_FILE, nouns) {
            Ok(words) => words,
            Err(error) => {
                return Err(error);
            },
        };
        if adjectives.len() == 0 {
            return Err(GeneratorError::NoAdjectivesAvailable);
        }
        if nouns.len() == 0 {
            return Err(GeneratorError::NoNounsAvailable);
        }
        Ok(NameGenerator { adjectives, nouns })
    }

    /// The words of the list named `path`, from what reading it gave.
    pub fn load_words(path: &str, read: Result<String, String>) -> (words: Result<
        Vec<String>,
        GeneratorError,
    >)
        ensures
            match loaded(path@, read) {
                Ok(list) => words matches Ok(w) && w.deep_view() == list,
                Err(detail) => words matches Err(GeneratorError::FileReadError(d)) && d@
                    == detail,
            },
    {
        match read {
            Ok(content) => Ok(parse_lowered_words(content.as_str())),
            Err(detail) => Err(
                GeneratorError::FileReadError(
                    String::from_str(path).concat(": ").concat(detail.as_str()),
                ),
            ),
        }
    }

    /// Makes a name: one of the adjectives, a hyphen, one of the nouns.
    pub fn generate(&self) -> (made: Result<String, GeneratorError>)
        ensures
            made matches Ok(name) && exists|first: Seq<char>, second: Seq<char>|
                #![trigger hyphenated(first, second)]
                self.adjectives().contains(first) && self.nouns().contains(second) && name@
                    == hyphenated(first, second),
    {
        proof {
            use_type_invariant(self);
        }
        let adjective = pick_one(self.adjectives.as_slice());
        let noun = pick_one(self.nouns.as_slice());
        proof {
            let first = self.adjectives@.index_of(*adjective->0);
            let second = self.nouns@.index_of(*noun->0);
            assert(self.adjectives.deep_view()[first] == adjective->0@);
            assert(self.nouns.deep_view()[second] == noun->0@);
        }
        name_from(adjective, noun)
    }
}

} // verus!
