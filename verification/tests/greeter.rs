use helloworld::greeter::{say_hello, FetchOutcome, HelloRequest, SayHelloError};
use helloworld::startup::{require_database_url, StartupError};

#[test]
fn single_row_hello_world() {
    // Relation holds exactly one row, "Hello, World!"; the scan yields it.
    let r = say_hello(&HelloRequest {}, FetchOutcome::Row("Hello, World!".to_string()));
    match r {
        Ok(reply) => assert_eq!(reply.message, "Hello, World!"),
        Err(_) => panic!("a located row must produce a reply"),
    }
}

#[test]
fn message_is_copied_verbatim() {
    let r = say_hello(&HelloRequest {}, FetchOutcome::Row("Howdy, partner.".to_string()));
    match r {
        Ok(reply) => assert_eq!(reply.message, "Howdy, partner."),
        Err(_) => panic!("a located row must produce a reply"),
    }
}

#[test]
fn empty_message_row_is_still_a_success() {
    // An empty message in the relation is a successful reply, not an error:
    // only the absence of rows or a failed query maps to the internal error.
    let r = say_hello(&HelloRequest {}, FetchOutcome::Row(String::new()));
    match r {
        Ok(reply) => assert_eq!(reply.message, ""),
        Err(_) => panic!("a located row must produce a reply"),
    }
}

#[test]
fn empty_relation_is_internal_error() {
    let r = say_hello(&HelloRequest {}, FetchOutcome::NoRows);
    assert_eq!(r.err(), Some(SayHelloError::Internal));
}

#[test]
fn failed_fetch_is_internal_error() {
    // The store was unreachable or the query failed mid-call: the caller
    // sees the same generic error as for an empty relation.
    let r = say_hello(&HelloRequest {}, FetchOutcome::Failed);
    assert_eq!(r.err(), Some(SayHelloError::Internal));
}

#[test]
fn internal_error_text_hides_the_cause() {
    let text = SayHelloError::Internal.status_message();
    assert_eq!(text, "Database error");
}

#[test]
fn missing_database_url_is_fatal() {
    let r = require_database_url(None);
    assert_eq!(r, Err(StartupError::MissingDatabaseUrl));
}

#[test]
fn present_database_url_is_handed_back_unchanged() {
    let url = "postgres://localhost:5432/greetings".to_string();
    let r = require_database_url(Some(url.clone()));
    assert_eq!(r, Ok(url));
}
