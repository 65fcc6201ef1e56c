use cool_names::domain::ports::DomainError;
use cool_names::domain::{Adjective, CoolName, Noun};

#[test]
fn domain_errors_have_their_texts() {
    assert_eq!(DomainError::NoAdjectivesAvailable.to_string(), "No adjectives available");
    assert_eq!(DomainError::NoNounsAvailable.to_string(), "No nouns available");
    assert_eq!(
        DomainError::LoadError("Failed to read file: gone".to_string()).to_string(),
        "Failed to load words: Failed to read file: gone"
    );
    assert_eq!(DomainError::LoadError(String::new()).to_string(), "Failed to load words: ");
}

#[test]
fn domain_errors_compare_by_kind_and_detail() {
    assert_eq!(DomainError::NoAdjectivesAvailable, DomainError::NoAdjectivesAvailable);
    assert_eq!(DomainError::NoNounsAvailable, DomainError::NoNounsAvailable);
    assert_ne!(DomainError::NoAdjectivesAvailable, DomainError::NoNounsAvailable);
    assert_eq!(DomainError::LoadError("a".to_string()), DomainError::LoadError("a".to_string()));
    assert_ne!(DomainError::LoadError("a".to_string()), DomainError::LoadError("b".to_string()));
    assert_ne!(DomainError::LoadError(String::new()), DomainError::NoNounsAvailable);
}

#[test]
fn a_copy_of_an_error_equals_it() {
    let error = DomainError::LoadError("detail".to_string());
    assert_eq!(error.clone(), error);
    assert_eq!(DomainError::NoNounsAvailable.clone(), DomainError::NoNounsAvailable);
}

#[test]
fn words_compare_by_their_text() {
    assert_eq!(Adjective::new("happy".to_string()), Adjective::new("happy".to_string()));
    assert_ne!(Adjective::new("happy".to_string()), Adjective::new("sad".to_string()));
    assert_eq!(Noun::new("panda".to_string()), Noun::new("panda".to_string()));
    assert_ne!(Noun::new("panda".to_string()), Noun::new("Panda".to_string()));
}

#[test]
fn names_compare_by_both_words() {
    let name = |adjective: &str, noun: &str| {
        CoolName::new(Adjective::new(adjective.to_string()), Noun::new(noun.to_string()))
    };
    assert_eq!(name("brave", "warrior"), name("brave", "warrior"));
    assert_ne!(name("brave", "warrior"), name("brave", "wizard"));
    assert_ne!(name("brave", "warrior"), name("bold", "warrior"));
    assert_eq!(name("brave", "warrior").clone(), name("brave", "warrior"));
}

#[test]
fn a_name_hands_out_its_words() {
    let name = CoolName::new(
        Adjective::new("brave".to_string()),
        Noun::new("warrior".to_string()),
    );
    assert_eq!(name.adjective().as_str(), "brave");
    assert_eq!(name.noun().as_str(), "warrior");
    assert_eq!(name.adjective().to_string(), "brave");
    assert_eq!(name.noun().to_string(), "warrior");
    assert_eq!(name.to_string(), "brave-warrior");
}

#[test]
fn the_text_of_a_name_is_its_words_and_a_hyphen() {
    let name = CoolName::new(Adjective::new(String::new()), Noun::new(String::new()));
    assert_eq!(name.to_string(), "-");

    let name = CoolName::new(
        Adjective::new("well-known".to_string()),
        Noun::new("jack-o-lantern".to_string()),
    );
    assert_eq!(name.to_string(), "well-known-jack-o-lantern");
}
