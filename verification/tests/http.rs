use cool_names::adapters::http::{
    accepts_html, answer, error_page, generate_name, generate_name_handler, respond, AppState,
    Format, Payload, Reply, STATUS_INTERNAL_SERVER_ERROR, STATUS_OK,
};
use cool_names::domain::ports::DomainError;
use cool_names::domain::{Adjective, CoolName, NameGenerator, Noun};
use std::sync::Arc;

struct MockNameGenerator {
    result: Result<CoolName, DomainError>,
}

impl NameGenerator for MockNameGenerator {
    fn generate(&self) -> Result<CoolName, DomainError> {
        self.result.clone()
    }
}

fn name_of(reply: &Reply) -> &str {
    match &reply.payload {
        Payload::Name(text) => text,
        Payload::Error(_) => panic!("the reply carries an error"),
    }
}

fn error_of(reply: &Reply) -> &str {
    match &reply.payload {
        Payload::Error(text) => text,
        Payload::Name(_) => panic!("the reply carries a name"),
    }
}

#[test]
fn test_get_root_returns_cool_name() {
    let mock_generator = Arc::new(MockNameGenerator {
        result: Ok(CoolName::new(
            Adjective::new("brave".to_string()),
            Noun::new("warrior".to_string()),
        )),
    });

    let state = AppState::new(mock_generator);
    let reply = generate_name_handler(&state);

    assert_eq!(reply.status, 200);
    assert_eq!(reply.format, Format::Json);
    assert!(name_of(&reply).contains("brave-warrior"));
}

#[test]
fn test_get_root_returns_error_on_failure() {
    let mock_generator = Arc::new(MockNameGenerator {
        result: Err(DomainError::NoAdjectivesAvailable),
    });

    let state = AppState::new(mock_generator);
    let reply = generate_name_handler(&state);

    assert_eq!(reply.status, 500);
    assert_eq!(reply.format, Format::Json);
    assert_eq!(error_of(&reply), "No adjectives available");
}

#[test]
fn the_handler_serves_a_generator_behind_a_trait_object() {
    let generator: Arc<dyn NameGenerator> = Arc::new(MockNameGenerator {
        result: Err(DomainError::LoadError("list gone".to_string())),
    });

    let state = AppState::new(generator);
    let reply = generate_name_handler(&state);

    assert_eq!(reply.status, 500);
    assert_eq!(error_of(&reply), "Failed to load words: list gone");
}

#[test]
fn no_accept_header_means_html() {
    assert!(accepts_html(None));
}

#[test]
fn an_accept_header_with_html_means_html() {
    assert!(accepts_html(Some("text/html")));
    assert!(accepts_html(Some("text/html,application/xhtml+xml,*/*;q=0.8")));
    assert!(accepts_html(Some("application/json, text/html;q=0.5")));
    assert!(accepts_html(Some("xtext/htmlx")));
}

#[test]
fn an_accept_header_without_html_means_json() {
    assert!(!accepts_html(Some("application/json")));
    assert!(!accepts_html(Some("*/*")));
    assert!(!accepts_html(Some("")));
    assert!(!accepts_html(Some("text/htm")));
    assert!(!accepts_html(Some("TEXT/HTML")));
    assert!(!accepts_html(Some("text/ html")));
    assert!(!accepts_html(Some("ext/html")));
}

#[test]
fn a_name_is_answered_with_200() {
    let reply = respond(Ok("brave-warrior".to_string()), false);
    assert_eq!(reply.status, STATUS_OK);
    assert_eq!(reply.status, 200);
    assert_eq!(reply.format, Format::Json);
    assert_eq!(name_of(&reply), "brave-warrior");

    let reply = respond(Ok("brave-warrior".to_string()), true);
    assert_eq!(reply.status, 200);
    assert_eq!(reply.format, Format::Html);
    assert_eq!(name_of(&reply), "brave-warrior");
}

#[test]
fn an_error_is_answered_with_500() {
    let reply = respond(Err("No nouns available".to_string()), false);
    assert_eq!(reply.status, STATUS_INTERNAL_SERVER_ERROR);
    assert_eq!(reply.status, 500);
    assert_eq!(reply.format, Format::Json);
    assert_eq!(error_of(&reply), "No nouns available");

    let reply = respond(Err("No nouns available".to_string()), true);
    assert_eq!(reply.status, 500);
    assert_eq!(reply.format, Format::Html);
    assert_eq!(error_of(&reply), "No nouns available");
}

#[test]
fn an_outcome_is_answered_with_its_text() {
    let name = CoolName::new(Adjective::new("calm".to_string()), Noun::new("comet".to_string()));
    let reply = answer(Ok(name), true);
    assert_eq!(reply.status, 200);
    assert_eq!(reply.format, Format::Html);
    assert_eq!(name_of(&reply), "calm-comet");

    let reply = answer(Err(DomainError::NoNounsAvailable), false);
    assert_eq!(reply.status, 500);
    assert_eq!(reply.format, Format::Json);
    assert_eq!(error_of(&reply), "No nouns available");

    let reply = answer(Err(DomainError::LoadError("no such file".to_string())), true);
    assert_eq!(reply.status, 500);
    assert_eq!(error_of(&reply), "Failed to load words: no such file");
}

#[test]
fn the_error_page_holds_the_message() {
    assert_eq!(
        error_page("No adjectives available"),
        "<html><body><h1>Error</h1><p>No adjectives available</p></body></html>"
    );
    assert_eq!(error_page(""), "<html><body><h1>Error</h1><p></p></body></html>");
}

#[test]
fn the_plain_generator_is_served_in_the_format_asked_for() {
    let generator = cool_names::NameGenerator::new(
        Ok("Mighty".to_string()),
        Ok("phoenix\n".to_string()),
    )
    .unwrap();

    let reply = generate_name(&generator, None);
    assert_eq!(reply.status, 200);
    assert_eq!(reply.format, Format::Html);
    assert_eq!(name_of(&reply), "mighty-phoenix");

    let reply = generate_name(&generator, Some("application/json"));
    assert_eq!(reply.status, 200);
    assert_eq!(reply.format, Format::Json);
    assert_eq!(name_of(&reply), "mighty-phoenix");

    let reply = generate_name(&generator, Some("text/html"));
    assert_eq!(reply.format, Format::Html);
}

#[test]
fn a_copy_of_the_state_serves_from_the_same_generator() {
    let state = AppState::new(Arc::new(MockNameGenerator {
        result: Ok(CoolName::new(
            Adjective::new("calm".to_string()),
            Noun::new("comet".to_string()),
        )),
    }));
    let copy = state.clone();

    assert_eq!(name_of(&generate_name_handler(&copy)), "calm-comet");
    assert_eq!(name_of(&generate_name_handler(&state)), "calm-comet");
}
