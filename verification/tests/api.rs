use mycelia_backend::api::{
    create_message, created_response, get_messages, messages_response, patch_field, Admission,
    ApiResponse, ErrorResponse, Response, TEXT_EXPECTED, UNAUTHORIZED,
};
use mycelia_backend::error::{DecodeError, Field, StoreError};
use mycelia_backend::message::Message;

fn refusal(admission: Admission) -> Response {
    match admission {
        Admission::Refuse(response) => response,
        Admission::Run(_) => panic!("the request was admitted"),
    }
}

fn error_text(response: &Response) -> &str {
    match response {
        Response::BadRequest(body) | Response::Unauthorized(body) | Response::NotFound(body) => {
            body.error()
        }
        _ => panic!("the answer reports no failure"),
    }
}

#[test]
fn texts_of_the_refusals() {
    assert_eq!(UNAUTHORIZED, "Invalid or missing API key");
    assert_eq!(TEXT_EXPECTED, "Expected a 'text' field");
}

#[test]
fn listing_without_the_key_is_unauthorized() {
    let response = refusal(get_messages(None, Some("s3cr3t")));
    assert!(matches!(response, Response::Unauthorized(_)));
    assert_eq!(response.status(), 401);
    assert_eq!(error_text(&response), "Invalid or missing API key");
    let response = refusal(get_messages(Some("Bearer wrong"), Some("s3cr3t")));
    assert_eq!(response.status(), 401);
}

#[test]
fn listing_with_the_key_runs_the_listing() {
    match get_messages(Some("Bearer s3cr3t"), Some("s3cr3t")) {
        Admission::Run(query) => assert!(!query.has_param_key("id")),
        Admission::Refuse(_) => panic!("refused with the key"),
    }
    assert!(matches!(get_messages(Some("s3cr3t"), Some("s3cr3t")), Admission::Run(_)));
}

#[test]
fn creation_without_the_key_is_unauthorized() {
    let response = refusal(create_message(Some("Bearer wrong"), Some("s3cr3t"), "hello"));
    assert_eq!(response.status(), 401);
    assert_eq!(error_text(&response), "Invalid or missing API key");
}

#[test]
fn creation_with_the_key_runs_with_the_text() {
    match create_message(Some("Bearer s3cr3t"), Some("s3cr3t"), "hello") {
        Admission::Run(query) => {
            assert!(query.has_param_key("text"));
            assert!(!query.has_param_key("id"));
        }
        Admission::Refuse(_) => panic!("refused with the key"),
    }
}

#[test]
fn update_without_the_key_is_unauthorized_whatever_it_holds() {
    let response = refusal(patch_field(None, Some("s3cr3t"), "a1", Some("goodbye")));
    assert_eq!(response.status(), 401);
    let response = refusal(patch_field(Some("nope"), Some("s3cr3t"), "a1", None));
    assert_eq!(response.status(), 401);
    assert_eq!(error_text(&response), "Invalid or missing API key");
}

#[test]
fn update_without_a_text_is_a_bad_request() {
    let response = refusal(patch_field(Some("Bearer s3cr3t"), Some("s3cr3t"), "a1", None));
    assert!(matches!(response, Response::BadRequest(_)));
    assert_eq!(response.status(), 400);
    assert_eq!(error_text(&response), "Expected a 'text' field");
}

#[test]
fn update_with_key_and_text_runs_with_both() {
    match patch_field(Some("Bearer s3cr3t"), Some("s3cr3t"), "a1", Some("goodbye")) {
        Admission::Run(query) => {
            assert!(query.has_param_key("id"));
            assert!(query.has_param_key("text"));
        }
        Admission::Refuse(_) => panic!("refused with key and text"),
    }
}

#[test]
fn update_with_an_empty_text_runs() {
    assert!(matches!(
        patch_field(Some("s3cr3t"), Some("s3cr3t"), "a1", Some("")),
        Admission::Run(_)
    ));
}

#[test]
fn records_are_answered_as_they_came() {
    let messages = vec![
        Message::new("b".to_string(), "second".to_string()),
        Message::new("a".to_string(), "first".to_string()),
    ];
    let response = messages_response(Ok(messages.clone()));
    assert_eq!(response.status(), 200);
    match response {
        Response::Messages(sent) => assert_eq!(sent, messages),
        _ => panic!("no list was answered"),
    }
}

#[test]
fn empty_list_is_a_success() {
    let response = messages_response(Ok(vec![]));
    assert_eq!(response.status(), 200);
    assert!(matches!(response, Response::Messages(ref sent) if sent.is_empty()));
}

#[test]
fn store_failure_is_answered_with_its_message() {
    let response = messages_response(Err(StoreError::Backend("connection lost".to_string())));
    assert!(matches!(response, Response::NotFound(_)));
    assert_eq!(response.status(), 404);
    assert_eq!(error_text(&response), "connection lost");
    let response = messages_response(Err(StoreError::Decode(DecodeError::MissingField(Field::Id))));
    assert_eq!(response.status(), 404);
    assert_eq!(error_text(&response), "The node has no field 'id'");
}

#[test]
fn created_record_is_answered() {
    let response = created_response(Ok(Message::new("a1".to_string(), "hello".to_string())));
    assert_eq!(response.status(), 200);
    match response {
        Response::Created(message) => {
            assert_eq!(message.id(), "a1");
            assert_eq!(message.text(), "hello");
        }
        _ => panic!("no record was answered"),
    }
}

#[test]
fn failed_creation_is_answered_with_its_message() {
    let response = created_response(Err(StoreError::NoResult));
    assert_eq!(response.status(), 404);
    assert_eq!(error_text(&response), "no result");
    let response = created_response(Err(StoreError::Backend("down".to_string())));
    assert_eq!(response.status(), 404);
    assert_eq!(error_text(&response), "down");
}

#[test]
fn error_body_holds_its_text() {
    assert_eq!(ErrorResponse::new("oops".to_string()).error(), "oops");
}

#[test]
fn notice_body_holds_its_text() {
    assert_eq!(ApiResponse::new("done".to_string()).message(), "done");
    assert_eq!(ApiResponse::new(String::new()).message(), "");
}

#[test]
fn every_request_is_unauthorized_while_no_key_is_configured() {
    let response = refusal(get_messages(Some("Bearer s3cr3t"), None));
    assert_eq!(response.status(), 401);
    assert_eq!(error_text(&response), "Invalid or missing API key");
    let response = refusal(create_message(Some("s3cr3t"), None, "hello"));
    assert_eq!(response.status(), 401);
    let response = refusal(patch_field(Some(""), None, "a1", Some("goodbye")));
    assert_eq!(response.status(), 401);
    let response = refusal(patch_field(None, None, "a1", None));
    assert_eq!(response.status(), 401);
}

#[test]
fn failed_decoding_is_answered_with_its_description() {
    let response = created_response(Err(StoreError::Decode(DecodeError::NotAString(Field::Text))));
    assert_eq!(response.status(), 404);
    assert_eq!(error_text(&response), "The field 'text' is not a string");
    let response = messages_response(Err(StoreError::Decode(DecodeError::NoNode)));
    assert_eq!(error_text(&response), "The row holds no node 'n'");
}
