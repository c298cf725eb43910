//! A parsed TOML document as plain values, read through the toml crate.
use vstd::prelude::*;

verus! {

#[verifier::external_type_specification]
#[verifier::external_body]
pub struct ExValue(toml::Value);

#[verifier::external_type_specification]
#[verifier::external_body]
pub struct ExTomlError(toml::de::Error);

/// A TOML value: a string, an array, a table with its entries in key order,
/// or any other kind of value (number, boolean, date), whose content the
/// configuration never reads.
#[derive(Debug)]
pub enum Node {
    Text(String),
    List(Vec<Node>),
    Table(Vec<(String, Node)>),
    Other,
}

/// The entries of the top-level table of a TOML document, or `None` when
/// the text is not a TOML document.
pub uninterp spec fn document_of(text: Seq<char>) -> Option<Vec<(String, Node)>>;

/// Relies on the variants of toml::Value: copies a value into a `Node`,
/// variant for variant, keeping the order of array items and table entries.
#[verifier::external_body]
fn node_of(value: &toml::Value) -> Node {
    match value {
        toml::Value::String(s) => Node::Text(s.clone()),
        toml::Value::Array(items) => Node::List(items.iter().map(node_of).collect()),
        toml::Value::Table(t) => Node::Table(t.iter().map(|(k, v)| (k.clone(), node_of(v))).collect()),
        _ => Node::Other,
    }
}

/// Relies on toml::from_str: parses a TOML document into its top-level
/// table, or reports a syntax error. The result depends on the text alone.
#[verifier::external_body]
pub(crate) fn parse_document(text: &str) -> (r: Result<Vec<(String, Node)>, toml::de::Error>)
    ensures
        r is Ok <==> document_of(text@) is Some,
        r matches Ok(root) ==> document_of(text@) == Some(root),
{
    let table: toml::Table = toml::from_str(text)?;
    Ok(table.iter().map(|(k, v)| (k.clone(), node_of(v))).collect())
}

} // verus!
