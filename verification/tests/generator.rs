use cool_names::{name_from, GeneratorError, NameGenerator, ADJECTIVES_FILE, NOUNS_FILE};
use std::collections::HashSet;

const ADJECTIVES: &str = "brave\nCalm\n\ndaring\n  eager\nfancy\n";
const NOUNS: &str = "Anchor\nbadger\ncomet\n\ndragon\n";

fn read(content: &str) -> Result<String, String> {
    Ok(content.to_string())
}

fn generator() -> Result<NameGenerator, GeneratorError> {
    NameGenerator::new(read(ADJECTIVES), read(NOUNS))
}

#[test]
fn test_load_words() {
    let words = NameGenerator::load_words("words.txt", read("word1\nWord2\nWORD3\n\n")).unwrap();
    assert_eq!(words.len(), 3);
    assert_eq!(words[0], "word1");
    assert_eq!(words[1], "word2");
    assert_eq!(words[2], "word3");
}

#[test]
fn test_generate_returns_valid_format() {
    let generator = generator().unwrap();
    let name = generator.generate().unwrap();

    assert!(name.contains('-'));
    let parts: Vec<&str> = name.split('-').collect();
    assert_eq!(parts.len(), 2);
    assert!(!parts[0].is_empty());
    assert!(!parts[1].is_empty());
}

#[test]
fn test_generate_uses_loaded_words() {
    let generator = generator().unwrap();
    let name = generator.generate().unwrap();
    let parts: Vec<&str> = name.split('-').collect();

    let adjectives = NameGenerator::load_words(ADJECTIVES_FILE, read(ADJECTIVES)).unwrap();
    let nouns = NameGenerator::load_words(NOUNS_FILE, read(NOUNS)).unwrap();
    assert!(adjectives.contains(&parts[0].to_string()));
    assert!(nouns.contains(&parts[1].to_string()));
}

#[test]
fn test_multiple_generations_work() {
    let generator = generator().unwrap();

    for _ in 0..10 {
        let name = generator.generate().unwrap();
        assert!(name.contains('-'));
    }
}

#[test]
fn test_generator_loads_and_generates() {
    let generator = generator().expect("Failed to create generator");
    let name = generator.generate().expect("Failed to generate name");

    assert!(name.contains('-'));
    let parts: Vec<&str> = name.split('-').collect();
    assert_eq!(parts.len(), 2);
    assert!(!parts[0].is_empty());
    assert!(!parts[1].is_empty());
}

#[test]
fn test_multiple_generations_produce_different_names() {
    let generator = generator().expect("Failed to create generator");
    let mut names = HashSet::new();

    for _ in 0..20 {
        let name = generator.generate().expect("Failed to generate name");
        names.insert(name);
    }

    assert!(
        names.len() > 1,
        "Should generate different names across multiple calls"
    );
}

#[test]
fn a_generator_of_one_word_each_makes_one_name() {
    let generator = NameGenerator::new(read("Mighty\n"), read("PHOENIX")).unwrap();

    for _ in 0..5 {
        assert_eq!(generator.generate().unwrap(), "mighty-phoenix");
    }
}

#[test]
fn an_unreadable_list_is_reported_with_its_name() {
    let unreadable: Result<String, String> = Err("permission denied".to_string());
    let result = NameGenerator::new(unreadable.clone(), read(NOUNS));
    match result {
        Err(GeneratorError::FileReadError(detail)) => {
            assert_eq!(detail, "adjectives.txt: permission denied");
        }
        _ => panic!("the adjectives could not be read"),
    }

    let result = NameGenerator::new(read(ADJECTIVES), unreadable.clone());
    match result {
        Err(error) => {
            assert_eq!(error.to_string(), "Failed to read file: nouns.txt: permission denied");
        }
        Ok(_) => panic!("the nouns could not be read"),
    }

    let both = NameGenerator::new(unreadable, Err("gone".to_string()));
    match both {
        Err(GeneratorError::FileReadError(detail)) => {
            assert_eq!(detail, "adjectives.txt: permission denied");
        }
        _ => panic!("the adjectives come first"),
    }
}

#[test]
fn a_list_without_words_is_an_error() {
    let result = NameGenerator::new(read(" \n\n"), read(NOUNS));
    assert!(matches!(result, Err(GeneratorError::NoAdjectivesAvailable)));

    let result = NameGenerator::new(read(ADJECTIVES), read(""));
    assert!(matches!(result, Err(GeneratorError::NoNounsAvailable)));

    let result = NameGenerator::new(read(""), read(""));
    assert!(matches!(result, Err(GeneratorError::NoAdjectivesAvailable)));
}

#[test]
fn generator_errors_have_their_texts() {
    assert_eq!(GeneratorError::NoAdjectivesAvailable.to_string(), "No adjectives available");
    assert_eq!(GeneratorError::NoNounsAvailable.to_string(), "No nouns available");
    assert_eq!(
        GeneratorError::FileReadError("x: y".to_string()).to_string(),
        "Failed to read file: x: y"
    );
}

#[test]
fn a_name_needs_both_picks() {
    let brave = "brave".to_string();
    let warrior = "warrior".to_string();

    assert_eq!(name_from(Some(&brave), Some(&warrior)).unwrap(), "brave-warrior");
    assert!(matches!(
        name_from(None, Some(&warrior)),
        Err(GeneratorError::NoAdjectivesAvailable)
    ));
    assert!(matches!(name_from(Some(&brave), None), Err(GeneratorError::NoNounsAvailable)));
    assert!(matches!(name_from(None, None), Err(GeneratorError::NoAdjectivesAvailable)));
}

#[test]
fn the_lists_have_their_names() {
    assert_eq!(ADJECTIVES_FILE, "adjectives.txt");
    assert_eq!(NOUNS_FILE, "nouns.txt");
}
