//! The statements of the store and the queries that carry them.

use vstd::prelude::*;
use neo4rs::Query;
use crate::bolt::{no_params, param, query, query_params, query_text};

verus! {

/// Returns every node labelled `Message`.
pub const GET_MESSAGES: &'static str = "MATCH (n:Message) RETURN n";

/// Makes a node labelled `Message` with a fresh identifier, the text given as
/// `$text` and the time of the write, and returns it. Identifier and time are
/// the backend's: no caller supplies them.
pub const CREATE_MESSAGE: &'static str =
    "CREATE (n:Message {id: randomUUID(), text: $text, t: timestamp()}) RETURN n";

/// Sets the text of every node labelled `Message` whose identifier is `$id` to
/// `$text`, and returns each node it changed.
pub const UPDATE_TEXT: &'static str = "MATCH (n:Message) WHERE n.id=$id SET n.text=$text RETURN n";

/// The query that lists all records.
pub fn get_messages() -> (q: Query)
    ensures
        query_text(q) == GET_MESSAGES@,
        query_params(q) == no_params(),
{
    query(GET_MESSAGES)
}

/// The query that creates a record with the given text.
pub fn create_message(text: &str) -> (q: Query)
    ensures
        query_text(q) == CREATE_MESSAGE@,
        query_params(q) == no_params().insert("text"@, text@),
{
    param(query(CREATE_MESSAGE), "text", text)
}

/// The query that gives the record with the given identifier a new text.
pub fn update_text(id: &str, text: &str) -> (q: Query)
    ensures
        query_text(q) == UPDATE_TEXT@,
        query_params(q) == no_params().insert("id"@, id@).insert("text"@, text@),
{
    param(param(query(UPDATE_TEXT), "id", id), "text", text)
}

} // verus!
