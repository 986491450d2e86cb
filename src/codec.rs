//! The calls into the TOML and JSON crates, and into `String` where vstd
//! gives no specification. Each function here is taken on trust; what it
//! returns is stated over a name where the crate's documentation takes
//! pages to say it.

use vstd::prelude::*;
use crate::document::Node;

verus! {

#[verifier::external_type_specification]
#[verifier::external_body]
pub struct ExTomlValue(toml::Value);

#[verifier::external_type_specification]
#[verifier::external_body]
pub struct ExJsonValue(serde_json::Value);

/// The tree that the TOML text `s` parses to as a top-level table, or
/// `None` when it is not valid TOML.
pub uninterp spec fn toml_tree(s: Seq<char>) -> Option<Node>;

/// The tree that the JSON text `s` parses to, or `None` when it is not
/// valid JSON.
pub uninterp spec fn json_tree(s: Seq<char>) -> Option<Node>;

/// The JSON string literal, quotes and escapes included, that stands for `s`.
pub uninterp spec fn json_quoted(s: Seq<char>) -> Seq<char>;

/// The indented rendering of the JSON text `s`, or `None` when it is not
/// valid JSON.
pub uninterp spec fn json_pretty(s: Seq<char>) -> Option<Seq<char>>;

/// Relies on the variants of `toml::Value` and on the iterators of
/// `toml::value::Array` and `toml::Table`: carries a TOML value over to a
/// `Node`, one variant for one variant, table entries in the table's order.
#[verifier::external_body]
fn node_of_toml(v: toml::Value) -> Node {
    match v {
        toml::Value::String(s) => Node::Text(s),
        toml::Value::Boolean(b) => Node::Bool(b),
        toml::Value::Integer(_) | toml::Value::Float(_) | toml::Value::Datetime(_) => Node::Other,
        toml::Value::Array(a) => Node::List(a.into_iter().map(node_of_toml).collect()),
        toml::Value::Table(t) => Node::Table(t.into_iter().map(|(k, x)| (k, node_of_toml(x))).collect()),
    }
}

/// Relies on the variants of `serde_json::Value` and on the iterators of its
/// arrays and `serde_json::Map`: carries a JSON value over to a `Node`, one
/// variant for one variant, object members in the map's order.
#[verifier::external_body]
fn node_of_json(v: serde_json::Value) -> Node {
    match v {
        serde_json::Value::Null => Node::Null,
        serde_json::Value::Bool(b) => Node::Bool(b),
        serde_json::Value::Number(_) => Node::Other,
        serde_json::Value::String(s) => Node::Text(s),
        serde_json::Value::Array(a) => Node::List(a.into_iter().map(node_of_json).collect()),
        serde_json::Value::Object(m) => Node::Table(m.into_iter().map(|(k, x)| (k, node_of_json(x))).collect()),
    }
}

/// Relies on `toml::from_str::<toml::Table>`: parses a TOML document, and on
/// failure gives its diagnostic.
#[verifier::external_body]
pub(crate) fn parse_toml_tree(s: &str) -> (r: Result<Node, String>)
    ensures
        match r {
            Ok(n) => toml_tree(s@) == Some(n),
            Err(_) => toml_tree(s@) is None,
        },
{
    match toml::from_str::<toml::Table>(s) {
        Ok(t) => Ok(node_of_toml(toml::Value::Table(t))),
        Err(e) => Err(format!("{e}")),
    }
}

/// Relies on `serde_json::from_str::<serde_json::Value>`: parses a JSON
/// document, and on failure gives its diagnostic.
#[verifier::external_body]
pub(crate) fn parse_json_tree(s: &str) -> (r: Result<Node, String>)
    ensures
        match r {
            Ok(n) => json_tree(s@) == Some(n),
            Err(_) => json_tree(s@) is None,
        },
{
    match serde_json::from_str::<serde_json::Value>(s) {
        Ok(v) => Ok(node_of_json(v)),
        Err(e) => Err(format!("{e:?}")),
    }
}

/// Relies on the `Display` of `serde_json::Value::String`: the compact JSON
/// string literal for `s`.
#[verifier::external_body]
pub(crate) fn quote_json(s: &str) -> (r: String)
    ensures
        r@ == json_quoted(s@),
{
    serde_json::Value::String(s.to_owned()).to_string()
}

/// Relies on `serde_json::to_string_pretty` of the value that
/// `serde_json::from_str` reads from `s`.
#[verifier::external_body]
pub(crate) fn pretty_json(s: &str) -> (r: Result<String, String>)
    ensures
        match r {
            Ok(p) => json_pretty(s@) == Some(p@),
            Err(_) => json_pretty(s@) is None,
        },
{
    match serde_json::from_str::<serde_json::Value>(s) {
        Ok(v) => serde_json::to_string_pretty(&v).map_err(|e| format!("{e:?}")),
        Err(e) => Err(format!("{e:?}")),
    }
}

/// Relies on `String::push_str`, which appends `t` to `s`.
#[verifier::external_body]
pub(crate) fn append(s: &mut String, t: &str)
    ensures
        final(s)@ == old(s)@ + t@,
{
    s.push_str(t)
}

} // verus!
