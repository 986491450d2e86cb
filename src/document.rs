//! A plain tree model of structured documents (TOML tickets, JSON replies),
//! and lookups on it.

use vstd::prelude::*;

verus! {

/// A parsed document value. Values that nothing here reads (numbers,
/// dates) are kept as `Other`.
pub enum Node {
    Null,
    Bool(bool),
    Text(String),
    Other,
    List(Vec<Node>),
    Table(Vec<(String, Node)>),
}

/// The value stored under `key` in a sequence of table entries: the first
/// entry with that key, if any.
pub open spec fn member(entries: Seq<(String, Node)>, key: Seq<char>) -> Option<Node>
    decreases entries.len(),
{
    if entries.len() == 0 {
        None
    } else if entries[0].0@ == key {
        Some(entries[0].1)
    } else {
        member(entries.drop_first(), key)
    }
}

/// The value under `key` when `n` is a table.
pub open spec fn field(n: Node, key: Seq<char>) -> Option<Node> {
    match n {
        Node::Table(entries) => member(entries@, key),
        _ => None,
    }
}

/// The text of `n` when it is a string.
pub open spec fn text_of(n: Node) -> Option<Seq<char>> {
    match n {
        Node::Text(s) => Some(s@),
        _ => None,
    }
}

/// Looks up `key` in the table `n`.
pub fn get_field<'a>(n: &'a Node, key: &str) -> (r: Option<&'a Node>)
    ensures
        match r {
            Some(v) => field(*n, key@) == Some(*v),
            None => field(*n, key@) is None,
        },
{
    match n {
        Node::Table(entries) => {
            assert(field(*n, key@) == member(entries@, key@));
            let wanted = key.to_owned();
            let mut i: usize = 0;
            assert(entries@.subrange(0, entries@.len() as int) =~= entries@);
            while i < entries.len()
                invariant
                    0 <= i <= entries@.len(),
                    wanted@ == key@,
                    field(*n, key@) == member(entries@, key@),
                    member(entries@, key@) == member(entries@.subrange(i as int, entries@.len() as int), key@),
                decreases entries@.len() - i,
            {
                let ghost rest = entries@.subrange(i as int, entries@.len() as int);
                assert(rest.drop_first() =~= entries@.subrange(i + 1, entries@.len() as int));
                let entry = &entries[i];
                if entry.0.eq(&wanted) {
                    assert(rest[0] == entries@[i as int]);
                    return Some(&entry.1);
                }
                i = i + 1;
            }
            None
        },
        _ => None,
    }
}

/// The string held by `n`, if it holds one.
pub fn get_text(n: &Node) -> (r: Option<&String>)
    ensures
        match r {
            Some(s) => text_of(*n) == Some(s@),
            None => text_of(*n) is None,
        },
{
    match n {
        Node::Text(s) => Some(s),
        _ => None,
    }
}

} // verus!
