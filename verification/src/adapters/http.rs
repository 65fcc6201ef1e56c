//! What the web front end decides: the representation a client gets, and
//! the status and content of the answer to a request for a name.
//!
//! Content negotiation follows one rule. A client that sends no `Accept`
//! header gets HTML. A client that sends one gets HTML where the header
//! holds `text/html`, and JSON otherwise.

use crate::adapters::page::{create_html_response, decimal, page_for};
use crate::domain::entities::hyphenated;
use crate::domain::ports::{DomainError, NameGenerator};
use crate::domain::CoolName;
use crate::text::{contains, occurs_at, occurs_in};
use std::sync::Arc;
use vstd::prelude::*;

verus! {

/// The status of an answer that carries a name.
pub const STATUS_OK: u16 = 200;

/// The status of an answer that carries an error.
pub const STATUS_INTERNAL_SERVER_ERROR: u16 = 500;

/// The representation of an answer.
#[derive(Debug, Clone, Copy, PartialEq, Eq, Structural)]
pub enum Format {
    /// A JSON object with one member: `name` on success, `error` on failure.
    Json,
    /// An HTML document that shows the name or the error.
    Html,
}

/// What an answer carries.
#[derive(Debug)]
pub enum Payload {
    /// The canonical text of the name that was made.
    Name(String),
    /// The text that describes why none was made.
    Error(String),
}

/// The answer to one request, before it is put on the wire.
#[derive(Debug)]
pub struct Reply {
    pub status: u16,
    pub format: Format,
    pub payload: Payload,
}

/// The answer that is owed for an outcome: a name gets status 200, an error
/// status 500, and either is passed on as it is, in the representation asked
/// for.
pub open spec fn reply_to(outcome: Result<Seq<char>, Seq<char>>, html: bool, reply: Reply) -> bool {
    &&& reply.format == if html {
        Format::Html
    } else {
        Format::Json
    }
    &&& match outcome {
        Ok(name) => reply.status == 200 && (reply.payload matches Payload::Name(text) && text@
            == name),
        Err(message) => reply.status == 500 && (reply.payload matches Payload::Error(text)
            && text@ == message),
    }
}

/// Whether a client that sent the given `Accept` header, if any, is to get
/// HTML.
pub open spec fn wants_html(accept: Option<&str>) -> bool {
    match accept {
        Some(value) => occurs_in("text/html"@, value@),
        None => true,
    }
}

/// What every request shares: the generator that serves it.
pub struct AppState<G: NameGenerator + ?Sized> {
    name_generator: Arc<G>,
}

impl<G: NameGenerator + ?Sized> AppState<G> {
    /// The generator behind the state.
    pub closed spec fn name_generator(&self) -> Arc<G> {
        self.name_generator
    }

    pub fn new(name_generator: Arc<G>) -> (state: Self)
        ensures
            state.name_generator() == name_generator,
    {
        AppState { name_generator }
    }
}

impl<G: NameGenerator + ?Sized> Clone for AppState<G> {
    /// Another handle to the same generator.
    fn clone(&self) -> (copy: Self) {
        AppState { name_generator: self.name_generator.clone() }
    }
}

/// Decides the representation from the `Accept` header of the request: the
/// header's value where the client sent one that is text, `None` otherwise.
pub fn accepts_html(accept: Option<&str>) -> (html: bool)
    ensures
        html == wants_html(accept),
{
    match accept {
        Some(value) => contains(value, "text/html"),
        None => true,
    }
}

/// The HTML fragment that reports an error.
pub fn error_page(message: &str) -> (page: String)
    ensures
        page@ == "<html><body><h1>Error</h1><p>"@ + message@ + "</p></body></html>"@,
        occurs_in(message@, page@),
{
    let page = String::from_str("<html><body><h1>Error</h1><p>").concat(message).concat(
        "</p></body></html>",
    );
    proof {
        let at = "<html><body><h1>Error</h1><p>"@.len() as int;
        assert(page@.subrange(at, at + message@.len()) =~= message@);
        assert(occurs_at(message@, page@, at));
    }
    page
}

/// The body of an answer in HTML: the page that shows the name, or the
/// fragment that reports the error. `milliseconds` is what the clock counts;
/// the page shows its last three digits.
pub fn html_body(payload: &Payload, milliseconds: u128) -> (body: String)
    ensures
        match payload {
            Payload::Name(name) => body@ == page_for(
                name@,
                decimal((milliseconds % 1000) as nat),
            ) && occurs_in(name@, body@),
            Payload::Error(message) => body@ == "<html><body><h1>Error</h1><p>"@ + message@
                + "</p></body></html>"@ && occurs_in(message@, body@),
        },
{
    match payload {
        Payload::Name(name) => create_html_response(name.as_str(), milliseconds),
        Payload::Error(message) => error_page(message.as_str()),
    }
}

/// Answers a request whose outcome is known: the text of the name that was
/// made, or the text of the error.
pub fn respond(outcome: Result<String, String>, html: bool) -> (reply: Reply)
    ensures
        reply_to(
            match outcome {
                Ok(name) => Ok(name@),
                Err(message) => Err(message@),
            },
            html,
            reply,
        ),
{
    let format = if html {
        Format::Html
    } else {
        Format::Json
    };
    match outcome {
        Ok(name) => Reply { status: STATUS_OK, format, payload: Payload::Name(name) },
        Err(message) => Reply {
            status: STATUS_INTERNAL_SERVER_ERROR,
            format,
            payload: Payload::Error(message),
        },
    }
}

/// Answers a request for which the generator returned `outcome`: status 200
/// and the canonical text of the name, or status 500 and the text of the
/// error.
pub fn answer(outcome: Result<CoolName, DomainError>, html: bool) -> (reply: Reply)
    ensures
        reply_to(
            match outcome {
                Ok(name) => Ok(name.canonical()),
                Err(error) => Err(error.message()),
            },
            html,
            reply,
        ),
{
    match outcome {
        Ok(cool_name) => respond(Ok(cool_name.to_string()), html),
        Err(error) => respond(Err(error.to_string()), html),
    }
}

/// Serves one request from the generator of `state`, always in JSON.
///
/// What the generator returns is not known beforehand. Whatever it is, the
/// reply is the one that `answer` gives for it: status 200 with a name of
/// two parts joined by a hyphen, or status 500 with an error.
pub fn generate_name_handler<G: NameGenerator + ?Sized>(state: &AppState<G>) -> (reply: Reply)
    ensures
        reply.format == Format::Json,
        match reply.payload {
            Payload::Name(text) => reply.status == 200 && exists|
                adjective: Seq<char>,
                noun: Seq<char>,
            | text@ == #[trigger] hyphenated(adjective, noun),
            Payload::Error(_) => reply.status == 500,
        },
{
    let outcome = state.name_generator.generate();
    proof {
        if outcome is Ok {
            let parts = outcome->Ok_0@;
            assert(outcome->Ok_0.canonical() == hyphenated(parts.0, parts.1));
        }
    }
    answer(outcome, false)
}

/// Serves one request from `generator`, in the representation that the
/// `Accept` header of the request asks for.
pub fn generate_name(generator: &crate::NameGenerator, accept: Option<&str>) -> (reply: Reply)
    ensures
        reply.status == 200,
        reply.format == if wants_html(accept) {
            Format::Html
        } else {
            Format::Json
        },
        reply.payload matches Payload::Name(text) && exists|first: Seq<char>, second: Seq<char>|
            #![trigger hyphenated(first, second)]
            generator.adjectives().contains(first) && generator.nouns().contains(second) && text@
                == hyphenated(first, second),
{
    let html = accepts_html(accept);
    match generator.generate() {
        Ok(name) => respond(Ok(name), html),
        Err(error) => respond(Err(error.to_string()), html),
    }
}

} // verus!
