use cool_names::adapters::http::{html_body, Payload};
use cool_names::adapters::page::{
    create_html_response, decimal_text, PAGE_HEAD, PAGE_MIDDLE, PAGE_TAIL,
};

#[test]
fn numbers_are_written_in_decimal() {
    assert_eq!(decimal_text(0), "0");
    assert_eq!(decimal_text(7), "7");
    assert_eq!(decimal_text(9), "9");
    assert_eq!(decimal_text(10), "10");
    assert_eq!(decimal_text(42), "42");
    assert_eq!(decimal_text(100), "100");
    assert_eq!(decimal_text(999), "999");
    assert_eq!(decimal_text(1234567890), "1234567890");
    assert_eq!(decimal_text(u128::MAX), "340282366920938463463374607431768211455");
}

#[test]
fn the_page_shows_the_name() {
    let page = create_html_response("brave-warrior", 1_700_000_000_042);

    assert!(page.starts_with("<!DOCTYPE html>"));
    assert!(page.ends_with("</html>"));
    assert!(page.contains("<div class=\"name-box\">brave-warrior</div>"));
    assert!(page.contains("[STATS] Generation time: 0.42ms | Entropy: HIGH"));
    assert_eq!(
        page,
        format!("{}brave-warrior{}42{}", PAGE_HEAD, PAGE_MIDDLE, PAGE_TAIL)
    );
}

#[test]
fn the_page_shows_the_milliseconds_within_the_second() {
    assert!(create_html_response("a-b", 0).contains("Generation time: 0.0ms"));
    assert!(create_html_response("a-b", 999).contains("Generation time: 0.999ms"));
    assert!(create_html_response("a-b", 1000).contains("Generation time: 0.0ms"));
    assert!(create_html_response("a-b", 12_007).contains("Generation time: 0.7ms"));
}

#[test]
fn the_page_keeps_its_braces() {
    let page = create_html_response("a-b", 5);

    assert!(page.contains("@keyframes blink {\n            0%, 49% { opacity: 1; }"));
    assert!(page.contains("document.addEventListener('keydown', function(e) {"));
    assert!(!page.contains("{{"));
    assert!(!page.contains("}}"));
}

#[test]
fn an_answer_in_html_has_its_body() {
    let body = html_body(&Payload::Name("calm-comet".to_string()), 3);
    assert_eq!(body, create_html_response("calm-comet", 3));
    assert!(body.contains("calm-comet"));

    let body = html_body(&Payload::Error("No nouns available".to_string()), 3);
    assert_eq!(body, "<html><body><h1>Error</h1><p>No nouns available</p></body></html>");
}
