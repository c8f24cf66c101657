//! Building a mapping table from a configuration document.
//!
//! The document is TOML text holding a `mapping` list of tables, each with
//! an integer `note` and an integer `key` in `0..=255`. The TOML grammar
//! itself is read by the `toml` crate behind a small trusted boundary; the
//! model of a parsed value is the ghost tree [`TomlNode`], and everything
//! from that tree to the finished table — the schema checks, the range
//! checks, the last-entry-wins application — is verified here.

use vstd::prelude::*;
use vstd::string::StringExecFns;

use crate::errors::MappingsError;
use crate::mappings::Entry;
use crate::mappings::Mappings;
use crate::mappings::table_from_entries;

verus! {

/// The ghost model of a parsed TOML value: the shapes this library reads,
/// and one opaque variant for every other shape (strings, booleans,
/// floats, datetimes), which the schema treats as "not an integer, not a
/// list, not a table".
pub enum TomlNode {
    Int(i64),
    Arr(Seq<TomlNode>),
    Tbl(Map<Seq<char>, TomlNode>),
    Other,
}

#[verifier::external_type_specification]
#[verifier::external_body]
pub struct ExTomlValue(toml::Value);

#[verifier::external_type_specification]
#[verifier::external_body]
pub struct ExTomlDeError(toml::de::Error);

/// The ghost tree a parsed value holds.
pub uninterp spec fn node_of(v: toml::Value) -> TomlNode;

/// What parsing a document yields: the tree of the document's single
/// top-level value, or nothing when the text is not valid TOML.
pub uninterp spec fn toml_document(s: Seq<char>) -> Option<TomlNode>;

/// Relies on toml::from_str::<toml::Value>: parsing is a function of the
/// text alone, it yields the document's value exactly when the text is
/// valid TOML, and it reports a failure otherwise.
#[verifier::external_body]
fn parse_toml(text: &str) -> (r: Result<toml::Value, toml::de::Error>)
    ensures
        (r matches Ok(v) ==> toml_document(text@) == Some(node_of(v))),
        (r matches Err(_) ==> toml_document(text@) is None),
{
    toml::from_str::<toml::Value>(text)
}

/// Relies on toml::Value::get with a string index: for a table it returns
/// the value under the key, for any other shape or a missing key it
/// returns nothing.
#[verifier::external_body]
fn value_get_key<'a>(v: &'a toml::Value, key: &str) -> (r: Option<&'a toml::Value>)
    ensures
        (r matches Some(c) ==> (node_of(*v) matches TomlNode::Tbl(m) && m.contains_key(key@)
            && node_of(*c) == m[key@])),
        (r is None ==> (node_of(*v) matches TomlNode::Tbl(m) ==> !m.contains_key(key@))),
{
    v.get(key)
}

/// Relies on toml::Value::as_integer: it returns the payload of an
/// integer value and nothing for every other shape.
#[verifier::external_body]
fn value_as_integer(v: &toml::Value) -> (r: Option<i64>)
    ensures
        (node_of(*v) matches TomlNode::Int(i) ==> r == Some(i)),
        (r matches Some(i) ==> node_of(*v) == TomlNode::Int(i)),
{
    v.as_integer()
}

/// Relies on toml::Value::as_array: it returns the elements of an array
/// value, in order, and nothing for every other shape.
#[verifier::external_body]
fn value_as_array(v: &toml::Value) -> (r: Option<&Vec<toml::Value>>)
    ensures
        (r matches Some(a) ==> (node_of(*v) matches TomlNode::Arr(s) && a@.len() == s.len()
            && (forall|i: int| 0 <= i < s.len() ==> node_of(a@[i]) == s[i]))),
        (r is None ==> !(node_of(*v) is Arr)),
{
    v.as_array()
}

/// Relies on toml::de::Error::message: the parser's own summary of what
/// went wrong, carried through verbatim into the diagnostic.
#[verifier::external_body]
fn de_error_message(e: &toml::de::Error) -> String {
    e.message().to_string()
}

/// Relies on toml::de::Error::span: the byte range of the original text
/// the failure points at, when the parser located one.
#[verifier::external_body]
fn de_error_span(e: &toml::de::Error) -> Option<(usize, usize)> {
    match e.span() {
        Some(range) => Some((range.start, range.end)),
        None => None,
    }
}

/// The entry one element of the `mapping` list describes: it must be a
/// table holding integer `note` and `key` values in `0..=255`; anything
/// else is a schema failure. Other keys in the table are ignored.
pub open spec fn entry_of_node(n: TomlNode) -> Option<Entry> {
    match n {
        TomlNode::Tbl(m) => {
            if m.contains_key("note"@) && m.contains_key("key"@) {
                match (m["note"@], m["key"@]) {
                    (TomlNode::Int(note), TomlNode::Int(key)) => {
                        if 0 <= note <= 255 && 0 <= key <= 255 {
                            Some(Entry { note: note as u8, key: key as u8 })
                        } else {
                            None
                        }
                    },
                    _ => None,
                }
            } else {
                None
            }
        },
        _ => None,
    }
}

/// The entries a list of elements describes, in document order, or
/// nothing as soon as any element is not a well-formed entry.
pub open spec fn entries_of_nodes(nodes: Seq<TomlNode>) -> Option<Seq<Entry>>
    decreases nodes.len(),
{
    if nodes.len() == 0 {
        Some(Seq::<Entry>::empty())
    } else {
        match (entries_of_nodes(nodes.drop_last()), entry_of_node(nodes.last())) {
            (Some(s), Some(e)) => Some(s.push(e)),
            _ => None,
        }
    }
}

/// The entry list a whole document describes: the document must be a
/// table whose `mapping` key holds a list of well-formed entries; other
/// top-level keys are ignored. Nothing means a schema failure.
pub open spec fn doc_entry_list(doc: TomlNode) -> Option<Seq<Entry>> {
    match doc {
        TomlNode::Tbl(m) => {
            if m.contains_key("mapping"@) {
                match m["mapping"@] {
                    TomlNode::Arr(nodes) => entries_of_nodes(nodes),
                    _ => None,
                }
            } else {
                None
            }
        },
        _ => None,
    }
}

/// The fixed summary a schema failure carries.
pub open spec fn schema_message() -> Seq<char> {
    "expected a `mapping` list of tables with integer `note` and `key` values in 0..=255"@
}

/// Extending the element prefix by one: the entries of the longer prefix
/// come from the entries of the shorter one and the new element's entry.
proof fn lemma_entries_take_step(nodes: Seq<TomlNode>, i: int)
    requires
        0 <= i < nodes.len(),
    ensures
        entries_of_nodes(nodes.take(i + 1)) == (match (
            entries_of_nodes(nodes.take(i)),
            entry_of_node(nodes[i]),
        ) {
            (Some(s), Some(e)) => Some(s.push(e)),
            _ => None::<Seq<Entry>>,
        }),
{
    let pre = nodes.take(i + 1);
    assert(pre.drop_last() =~= nodes.take(i));
    assert(pre.last() == nodes[i]);
}

/// One malformed element spoils the whole list: no entry list exists.
proof fn lemma_entries_bad_element(nodes: Seq<TomlNode>, i: int)
    requires
        0 <= i < nodes.len(),
        entry_of_node(nodes[i]) is None,
    ensures
        entries_of_nodes(nodes) is None,
    decreases nodes.len(),
{
    if i == nodes.len() - 1 {
        assert(nodes.last() == nodes[i]);
    } else {
        assert(nodes.drop_last()[i] == nodes[i]);
        lemma_entries_bad_element(nodes.drop_last(), i);
    }
}

/// Read the entry list out of a parsed document, validating the schema:
/// the result is exactly the entry list the document describes, and
/// nothing when the document breaks the schema.
fn extract_entries(doc: &toml::Value) -> (r: Option<Vec<Entry>>)
    ensures
        match doc_entry_list(node_of(*doc)) {
            Some(es) => (r matches Some(v) && v@ == es),
            None => r is None,
        },
{
    let mapping = match value_get_key(doc, "mapping") {
        Some(v) => v,
        None => {
            return None;
        },
    };
    let arr = match value_as_array(mapping) {
        Some(a) => a,
        None => {
            return None;
        },
    };
    let ghost nodes: Seq<TomlNode> = node_of(*mapping)->Arr_0;
    let mut entries: Vec<Entry> = Vec::new();
    let mut i: usize = 0;
    proof {
        assert(nodes.take(0) =~= Seq::<TomlNode>::empty());
    }
    while i < arr.len()
        invariant
            i <= arr@.len(),
            arr@.len() == nodes.len(),
            forall|j: int| 0 <= j < nodes.len() ==> node_of(arr@[j]) == nodes[j],
            entries_of_nodes(nodes.take(i as int)) == Some(entries@),
            doc_entry_list(node_of(*doc)) == entries_of_nodes(nodes),
        decreases arr@.len() - i,
    {
        let item = &arr[i];
        let note_value = match value_get_key(item, "note") {
            Some(v) => v,
            None => {
                proof {
                    lemma_entries_bad_element(nodes, i as int);
                }
                return None;
            },
        };
        let note_int = match value_as_integer(note_value) {
            Some(n) => n,
            None => {
                proof {
                    lemma_entries_bad_element(nodes, i as int);
                }
                return None;
            },
        };
        if note_int < 0 || note_int > 255 {
            proof {
                lemma_entries_bad_element(nodes, i as int);
            }
            return None;
        }
        let key_value = match value_get_key(item, "key") {
            Some(v) => v,
            None => {
                proof {
                    lemma_entries_bad_element(nodes, i as int);
                }
                return None;
            },
        };
        let key_int = match value_as_integer(key_value) {
            Some(k) => k,
            None => {
                proof {
                    lemma_entries_bad_element(nodes, i as int);
                }
                return None;
            },
        };
        if key_int < 0 || key_int > 255 {
            proof {
                lemma_entries_bad_element(nodes, i as int);
            }
            return None;
        }
        entries.push(Entry { note: note_int as u8, key: key_int as u8 });
        proof {
            lemma_entries_take_step(nodes, i as int);
        }
        i = i + 1;
    }
    proof {
        assert(nodes.take(nodes.len() as int) =~= nodes);
    }
    Some(entries)
}

impl Mappings {
    /// Build a table from configuration text.
    ///
    /// Text that is not valid TOML fails with the parser's own summary and
    /// span; text that parses but breaks the schema fails with the fixed
    /// schema summary; either failure keeps the complete source text in
    /// the error. A well-formed document yields the table its entries
    /// build, later entries winning and out-of-range notes dropped.
    pub fn from_document(text: &str) -> (r: Result<Mappings, MappingsError>)
        ensures
            match toml_document(text@) {
                None => (r matches Err(e) && e.source@ == text@),
                Some(doc) => match doc_entry_list(doc) {
                    None => (r matches Err(e) && e.source@ == text@ && e.message@
                        == schema_message() && e.span is None),
                    Some(es) => (r matches Ok(m) && m@ == table_from_entries(es)),
                },
            },
    {
        let value = match parse_toml(text) {
            Ok(v) => v,
            Err(e) => {
                let message = de_error_message(&e);
                let span = de_error_span(&e);
                return Err(MappingsError { message, span, source: String::from_str(text) });
            },
        };
        match extract_entries(&value) {
            Some(entries) => Ok(Mappings::from_entries(&entries)),
            None => Err(
                MappingsError {
                    message: String::from_str(
                        "expected a `mapping` list of tables with integer `note` and `key` values in 0..=255",
                    ),
                    span: None,
                    source: String::from_str(text),
                },
            ),
        }
    }
}

} // verus!
