//! The record mapper: from a node, or from the row that binds it, to a
//! [`Message`].

use vstd::prelude::*;
use neo4rs::{Node, Row};
use crate::bolt::{node_fields, node_property, row_node, row_nodes, Property};
use crate::error::{DecodeError, Failure, Field, StoreError};
use crate::message::{Message, MessageView};

verus! {

/// The name under which every statement of the store returns its node.
pub open spec fn node_name() -> Seq<char> {
    "n"@
}

/// The key under which a node holds a field of a record.
pub open spec fn field_name(field: Field) -> Seq<char> {
    match field {
        Field::Id => "id"@,
        Field::Text => "text"@,
    }
}

/// The text that a node holds for a field of a record. A node without the key
/// has no such field; a value that is no string is not one, whatever text it
/// could be shown as.
pub open spec fn field_text(node: Node, field: Field) -> Result<Seq<char>, DecodeError> {
    let fields = node_fields(node);
    if !fields.dom().contains(field_name(field)) {
        Err(DecodeError::MissingField(field))
    } else {
        match fields[field_name(field)] {
            Some(text) => Ok(text),
            None => Err(DecodeError::NotAString(field)),
        }
    }
}

/// The record that a node holds: its `id` and its `text`, where it has both as
/// strings. The identifier is looked at first: where both fail, the error is
/// that of the identifier.
pub open spec fn node_message(node: Node) -> Result<MessageView, DecodeError> {
    match field_text(node, Field::Id) {
        Err(error) => Err(error),
        Ok(id) => match field_text(node, Field::Text) {
            Err(error) => Err(error),
            Ok(text) => Ok(MessageView { id, text }),
        },
    }
}

/// The record that a row holds: that of the node it binds to `n`, where it
/// binds one.
pub open spec fn row_message(row: Row) -> Result<MessageView, DecodeError> {
    let nodes = row_nodes(row);
    if nodes.dom().contains(node_name()) {
        node_message(nodes[node_name()])
    } else {
        Err(DecodeError::NoNode)
    }
}

/// Whether `r` is the success or the decode failure that `expected` asks for.
pub open spec fn decodes_to(
    r: Result<Message, StoreError>,
    expected: Result<MessageView, DecodeError>,
) -> bool {
    match expected {
        Ok(record) => r matches Ok(message) && message@ == record,
        Err(error) => r matches Err(failure) && failure@ == Failure::Decode(error),
    }
}

/// Reads one field of a record from a node.
fn read_field(node: &Node, field: Field) -> (r: Result<String, DecodeError>)
    ensures
        match field_text(*node, field) {
            Ok(text) => r matches Ok(read) && read@ == text,
            Err(error) => r == Err::<String, DecodeError>(error),
        },
{
    let key = match field {
        Field::Id => "id",
        Field::Text => "text",
    };
    match node_property(node, key) {
        Property::Text(text) => Ok(text),
        Property::Other => Err(DecodeError::NotAString(field)),
        Property::Absent => Err(DecodeError::MissingField(field)),
    }
}

/// Decodes a node into a record. A node without an `id` or a `text` held as a
/// string is a decode failure; nothing is defaulted and nothing converted.
pub fn to_message(node: &Node) -> (r: Result<Message, StoreError>)
    ensures
        decodes_to(r, node_message(*node)),
{
    let id = match read_field(node, Field::Id) {
        Ok(id) => id,
        Err(error) => {
            return Err(StoreError::Decode(error));
        },
    };
    let text = match read_field(node, Field::Text) {
        Ok(text) => text,
        Err(error) => {
            return Err(StoreError::Decode(error));
        },
    };
    Ok(Message::new(id, text))
}

/// Decodes the node that a row binds to `n` into a record. A row without such
/// a node is a decode failure, and so is a node that is no record.
pub fn row_to_message(row: &Row) -> (r: Result<Message, StoreError>)
    ensures
        decodes_to(r, row_message(*row)),
{
    match row_node(row, "n") {
        Some(node) => to_message(&node),
        None => Err(StoreError::Decode(DecodeError::NoNode)),
    }
}

} // verus!
