//! A JSON document as the credential files hold it, and the two lookups the
//! adapters make in it: an object's member by name, and a string's text.

use vstd::prelude::*;

verus! {

/// A parsed JSON value. An object's members are in document order, each
/// name once; numbers are kept only as such (their value is never read).
pub enum JsonNode {
    Null,
    Bool(bool),
    Number,
    Text(String),
    Array(Vec<JsonNode>),
    Object(Vec<(String, JsonNode)>),
}

/// The value of the first member named `key`.
pub open spec fn entry_value(entries: Seq<(String, JsonNode)>, key: Seq<char>) -> Option<JsonNode>
    decreases entries.len(),
{
    if entries.len() == 0 {
        None
    } else if entries[0].0@ == key {
        Some(entries[0].1)
    } else {
        entry_value(entries.drop_first(), key)
    }
}

/// An object's member named `key`; nothing for a value that is not an
/// object.
pub open spec fn member(node: JsonNode, key: Seq<char>) -> Option<JsonNode> {
    match node {
        JsonNode::Object(entries) => entry_value(entries@, key),
        _ => None,
    }
}

/// A member's text, when the member is there and is a string.
pub open spec fn text_of(node: Option<JsonNode>) -> Option<Seq<char>> {
    match node {
        Some(JsonNode::Text(s)) => Some(s@),
        _ => None,
    }
}

proof fn lemma_entry_value_skip(entries: Seq<(String, JsonNode)>, key: Seq<char>, i: int)
    requires
        0 <= i <= entries.len(),
        forall|k: int| 0 <= k < i ==> entries[k].0@ != key,
    ensures
        entry_value(entries, key) == entry_value(entries.skip(i), key),
    decreases i,
{
    if i > 0 {
        lemma_entry_value_skip(entries.drop_first(), key, i - 1);
        assert(entries.drop_first().skip(i - 1) =~= entries.skip(i));
    } else {
        assert(entries.skip(0) =~= entries);
    }
}

/// Looks up an object's member by name.
pub fn get_member<'a>(node: &'a JsonNode, key: &str) -> (r: Option<&'a JsonNode>)
    ensures
        match r {
            Some(v) => member(*node, key@) == Some(*v),
            None => member(*node, key@) is None,
        },
{
    match node {
        JsonNode::Object(entries) => {
            let name = String::from_str(key);
            let mut i: usize = 0;
            while i < entries.len()
                invariant
                    name@ == key@,
                    *node == JsonNode::Object(*entries),
                    i <= entries.len(),
                    forall|k: int| 0 <= k < i ==> entries@[k].0@ != key@,
                decreases entries.len() - i,
            {
                if entries[i].0 == name {
                    proof {
                        lemma_entry_value_skip(entries@, key@, i as int);
                        assert(entries@.skip(i as int)[0] == entries@[i as int]);
                    }
                    return Some(&entries[i].1);
                }
                i = i + 1;
            }
            proof {
                lemma_entry_value_skip(entries@, key@, i as int);
            }
            None
        },
        _ => None,
    }
}

/// The text of a value that is a string.
pub fn as_text(node: Option<&JsonNode>) -> (r: Option<String>)
    ensures
        match node {
            Some(n) => r.deep_view() == text_of(Some(*n)),
            None => r is None,
        },
{
    match node {
        Some(JsonNode::Text(s)) => Some(s.clone()),
        _ => None,
    }
}

} // verus!
