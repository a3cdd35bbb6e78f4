use mycelia_backend::statement::{
    create_message, get_messages, update_text, CREATE_MESSAGE, GET_MESSAGES, UPDATE_TEXT,
};

#[test]
fn listing_matches_every_message_node() {
    assert_eq!(GET_MESSAGES, "MATCH (n:Message) RETURN n");
}

#[test]
fn creation_takes_the_text_and_lets_the_backend_make_the_rest() {
    assert_eq!(
        CREATE_MESSAGE,
        "CREATE (n:Message {id: randomUUID(), text: $text, t: timestamp()}) RETURN n"
    );
}

#[test]
fn update_matches_by_id_and_sets_the_text() {
    assert_eq!(UPDATE_TEXT, "MATCH (n:Message) WHERE n.id=$id SET n.text=$text RETURN n");
}

#[test]
fn listing_query_has_no_parameter() {
    let query = get_messages();
    assert!(!query.has_param_key("id"));
    assert!(!query.has_param_key("text"));
}

#[test]
fn creation_query_carries_the_text_only() {
    let query = create_message("hello");
    assert!(query.has_param_key("text"));
    assert!(!query.has_param_key("id"));
    assert!(!query.has_param_key("t"));
}

#[test]
fn update_query_carries_id_and_text() {
    let query = update_text("a1", "goodbye");
    assert!(query.has_param_key("id"));
    assert!(query.has_param_key("text"));
    assert!(!query.has_param_key("a1"));
    assert!(!query.has_param_key("goodbye"));
}

#[test]
fn update_query_carries_both_when_the_values_are_equal_or_empty() {
    let query = update_text("", "");
    assert!(query.has_param_key("id"));
    assert!(query.has_param_key("text"));
}
