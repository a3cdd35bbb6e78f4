//! The values of the `neo4rs` driver that the library handles, and what it
//! takes on trust about them.
//!
//! Nothing in this file is proved. Each function below makes one call into the
//! driver; its contract is a claim about the driver's code.

use vstd::prelude::*;

verus! {

/// A row of a result, `neo4rs::Row`.
#[verifier::external_type_specification]
#[verifier::external_body]
pub struct ExRow(neo4rs::Row);

/// A node of the graph as a row carries it, `neo4rs::Node`.
#[verifier::external_type_specification]
#[verifier::external_body]
pub struct ExNode(neo4rs::Node);

/// A statement with its parameters, `neo4rs::Query`.
#[verifier::external_type_specification]
#[verifier::external_body]
pub struct ExQuery(neo4rs::Query);

/// What a node holds under a key, as far as the library reads it.
pub enum Property {
    /// A string, and its text.
    Text(String),
    /// A value of another kind.
    Other,
    /// Nothing: the node has no such key.
    Absent,
}

/// The nodes of a row: the bound names under which `Row::get::<Node>`
/// succeeds, each with the node it gives.
pub uninterp spec fn row_nodes(row: neo4rs::Row) -> Map<Seq<char>, neo4rs::Node>;

/// The properties of a node: its keys, each with the text of the value where
/// the value is a string, and with `None` where it is of another kind.
pub uninterp spec fn node_fields(node: neo4rs::Node) -> Map<Seq<char>, Option<Seq<char>>>;

/// The text of the statement that a query sends.
pub uninterp spec fn query_text(query: neo4rs::Query) -> Seq<char>;

/// The string parameters of a query, by name.
pub uninterp spec fn query_params(query: neo4rs::Query) -> Map<Seq<char>, Seq<char>>;

/// The parameters of a query that has none.
pub open spec fn no_params() -> Map<Seq<char>, Seq<char>> {
    Map::empty()
}

/// `neo4rs::Row::get`, asked for a `Node`. The driver looks the name up among
/// the row's attributes and decodes what it finds; the outcome depends on the
/// row and the name alone. Claimed: it succeeds exactly on the names of
/// [`row_nodes`], and gives the node that stands there.
#[verifier::external_body]
pub(crate) fn row_node(row: &neo4rs::Row, name: &str) -> (r: Option<neo4rs::Node>)
    ensures
        r is Some <==> row_nodes(*row).dom().contains(name@),
        r matches Some(node) ==> node == row_nodes(*row)[name@],
{
    row.get::<neo4rs::Node>(name).ok()
}

/// `neo4rs::Node::get`, asked for the value as the driver holds it, a
/// `BoltType`. The driver looks the key up among the node's properties and
/// copies what it finds, variant by variant; it fails with `NoSuchProperty`
/// exactly where the key is absent, and with another error where it cannot
/// copy the value. Claimed: the answer is `Absent` exactly where the node has
/// no such key, `Text` with the characters of the value exactly where the
/// value is a string, and `Other` for every other value.
#[verifier::external_body]
pub(crate) fn node_property(node: &neo4rs::Node, key: &str) -> (r: Property)
    ensures
        r is Absent <==> !node_fields(*node).dom().contains(key@),
        r matches Property::Text(text) ==> node_fields(*node)[key@] == Some(text@),
        r is Other ==> node_fields(*node)[key@] is None,
{
    match node.get::<neo4rs::BoltType>(key) {
        Ok(neo4rs::BoltType::String(text)) => Property::Text(text.value),
        Ok(_) => Property::Other,
        Err(neo4rs::DeError::NoSuchProperty) => Property::Absent,
        Err(_) => Property::Other,
    }
}

/// `neo4rs::query`: a query that sends the given text and has no parameter yet.
#[verifier::external_body]
pub(crate) fn query(text: &str) -> (q: neo4rs::Query)
    ensures
        query_text(q) == text@,
        query_params(q) == no_params(),
{
    neo4rs::query(text)
}

/// `neo4rs::Query::param`, given a string value: the same statement, with the
/// value put under the key, in place of what stood there.
#[verifier::external_body]
pub(crate) fn param(q: neo4rs::Query, key: &str, value: &str) -> (r: neo4rs::Query)
    ensures
        query_text(r) == query_text(q),
        query_params(r) == query_params(q).insert(key@, value@),
{
    q.param(key, value)
}

} // verus!
