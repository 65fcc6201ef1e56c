use cool_names::domain::{Adjective, CoolName, Noun};

#[test]
fn test_cool_name_display() {
    let adjective = Adjective::new("awesome".to_string());
    let noun = Noun::new("dragon".to_string());
    let cool_name = CoolName::new(adjective, noun);

    assert_eq!(cool_name.to_string(), "awesome-dragon");
}

#[test]
fn test_adjective_creation() {
    let adj = Adjective::new("happy".to_string());
    assert_eq!(adj.as_str(), "happy");
}

#[test]
fn test_noun_creation() {
    let noun = Noun::new("panda".to_string());
    assert_eq!(noun.as_str(), "panda");
}
