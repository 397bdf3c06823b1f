//! JSON documents, read one value at a time and written as flat objects.

use serde_json::Value;
use vstd::prelude::*;

verus! {

/// A value in a document. A number stands as what it is as an unsigned and as a signed
/// integer, an array as its length.
#[derive(Debug, PartialEq, Eq)]
pub enum JsonNode {
    Null,
    Bool(bool),
    Number(Option<u64>, Option<i64>),
    Text(String),
    Array(usize),
    Object,
}

/// A value in a document, as values.
pub enum JsonView {
    Null,
    Bool(bool),
    Number(Option<u64>, Option<i64>),
    Text(Seq<char>),
    Array(nat),
    Object,
}

impl View for JsonNode {
    type V = JsonView;

    open spec fn view(&self) -> JsonView {
        match self {
            JsonNode::Null => JsonView::Null,
            JsonNode::Bool(value) => JsonView::Bool(*value),
            JsonNode::Number(unsigned, signed) => JsonView::Number(*unsigned, *signed),
            JsonNode::Text(text) => JsonView::Text(text@),
            JsonNode::Array(len) => JsonView::Array(*len as nat),
            JsonNode::Object => JsonView::Object,
        }
    }
}

/// The value that `pointer` leads to in the document `text`, none if there is none there,
/// or what is wrong with the document.
pub uninterp spec fn json_node_at(text: Seq<char>, pointer: Seq<char>) -> Result<
    Option<JsonView>,
    Seq<char>,
>;

/// The rows of the array that the document `text` is, each as a document; none if it is
/// another value; or what is wrong with the document.
pub uninterp spec fn json_rows_of(text: Seq<char>) -> Result<Option<Seq<Seq<char>>>, Seq<char>>;

/// An object with the given members as an indented document.
pub uninterp spec fn json_pretty(members: Seq<(Seq<char>, JsonView)>) -> Seq<char>;

/// An object with the given members as a document on one line.
pub uninterp spec fn json_line(members: Seq<(Seq<char>, JsonView)>) -> Seq<char>;

/// A text as it stands in a document: in quotation marks, and with the characters escaped
/// that do not stand there as they are.
pub uninterp spec fn json_text_of(text: Seq<char>) -> Seq<char>;

/// A looked-up value, as values.
pub open spec fn node_view(node: Option<JsonNode>) -> Option<JsonView> {
    match node {
        Some(node) => Some(node@),
        None => None,
    }
}

/// The members of an object, as values.
pub open spec fn members_view(members: Seq<(String, JsonNode)>) -> Seq<(Seq<char>, JsonView)> {
    Seq::new(members.len(), |i: int| (members[i].0@, members[i].1@))
}

/// The texts, as values.
pub open spec fn rows_view(rows: Seq<String>) -> Seq<Seq<char>> {
    Seq::new(rows.len(), |i: int| rows[i]@)
}

/// Whether a value is one that a member can be written with: neither an array nor an
/// object, and a number that is what it is as both kinds of integer.
pub open spec fn is_writable(node: JsonView) -> bool {
    match node {
        JsonView::Array(_) | JsonView::Object => false,
        JsonView::Number(unsigned, signed) => unsigned is Some && signed == as_signed(
            unsigned.unwrap(),
        ),
        _ => true,
    }
}

/// An unsigned integer as a signed one, where it fits.
pub open spec fn as_signed(n: u64) -> Option<i64> {
    if n <= i64::MAX { Some(n as i64) } else { None }
}

/// Whether a key needs no escape in a pointer.
pub open spec fn is_plain_key(key: Seq<char>) -> bool {
    !key.contains('/') && !key.contains('~')
}

/// Whether reading a document gives back the members that it was written with.
pub open spec fn reads_back(text: Seq<char>, members: Seq<(Seq<char>, JsonView)>) -> bool {
    &&& json_node_at(text, Seq::empty()) == Ok::<Option<JsonView>, Seq<char>>(
        Some(JsonView::Object),
    )
    &&& forall|i: int|
        #![trigger members[i]]
        0 <= i < members.len() && is_plain_key(members[i].0) && is_writable(members[i].1) && (forall|
            j: int,
        |
            0 <= j < members.len() && j != i ==> #[trigger] members[j].0 != members[i].0)
            ==> json_node_at(text, seq!['/'] + members[i].0) == Ok::<Option<JsonView>, Seq<char>>(
            Some(members[i].1),
        )
}

/// `serde_json::from_str` parses the document, and `Value::pointer` finds the value; what
/// comes out depends on the two texts alone.
#[verifier::external_body]
pub(crate) fn json_at(text: &str, pointer: &str) -> (node: Result<Option<JsonNode>, String>)
    ensures
        match node {
            Ok(node) => json_node_at(text@, pointer@) == Ok::<Option<JsonView>, Seq<char>>(
                node_view(node),
            ),
            Err(error) => json_node_at(text@, pointer@) == Err::<Option<JsonView>, Seq<char>>(
                error@,
            ),
        },
{
    let value: Value = serde_json::from_str(text).map_err(|error| error.to_string())?;
    Ok(value.pointer(pointer).map(|node| match node {
        Value::Null => JsonNode::Null,
        Value::Bool(value) => JsonNode::Bool(*value),
        Value::Number(number) => JsonNode::Number(number.as_u64(), number.as_i64()),
        Value::String(text) => JsonNode::Text(text.clone()),
        Value::Array(items) => JsonNode::Array(items.len()),
        Value::Object(_) => JsonNode::Object,
    }))
}

/// `serde_json::from_str` parses the document, `Value::as_array` gives its rows and
/// `Value::to_string` writes each as a document of its own; what comes out depends on the
/// text alone.
#[verifier::external_body]
pub(crate) fn json_rows(text: &str) -> (rows: Result<Option<Vec<String>>, String>)
    ensures
        match rows {
            Ok(Some(rows)) => json_rows_of(text@) == Ok::<Option<Seq<Seq<char>>>, Seq<char>>(
                Some(rows_view(rows@)),
            ),
            Ok(None) => json_rows_of(text@) == Ok::<Option<Seq<Seq<char>>>, Seq<char>>(None),
            Err(error) => json_rows_of(text@) == Err::<Option<Seq<Seq<char>>>, Seq<char>>(error@),
        },
{
    let value: Value = serde_json::from_str(text).map_err(|error| error.to_string())?;
    Ok(value.as_array().map(|rows| rows.iter().map(|row| row.to_string()).collect()))
}

/// `serde_json::to_string_pretty` writes an object; the document depends on the members
/// alone. Parsed again, also with a line feed behind it, it gives back each member whose
/// key occurs once.
#[verifier::external_body]
pub(crate) fn json_object_text(members: &Vec<(String, JsonNode)>) -> (text: String)
    requires
        forall|i: int| 0 <= i < members@.len() ==> is_writable((#[trigger] members@[i]).1@),
    ensures
        text@ == json_pretty(members_view(members@)),
        reads_back(text@, members_view(members@)),
        reads_back(text@.push('\n'), members_view(members@)),
{
    let object: serde_json::Map<String, Value> = members.iter().map(|(key, node)| (key.clone(), match node {
        JsonNode::Bool(value) => Value::from(*value),
        JsonNode::Number(Some(number), _) => Value::from(*number),
        JsonNode::Text(text) => Value::from(text.as_str()),
        _ => Value::Null,
    })).collect();
    serde_json::to_string_pretty(&object).expect("members with text keys can be written")
}

/// `serde_json::to_string` writes an object; the document depends on the members alone.
/// Parsed again, it gives back each member whose key occurs once.
#[verifier::external_body]
pub(crate) fn json_object_line(members: &Vec<(String, JsonNode)>) -> (text: String)
    requires
        forall|i: int| 0 <= i < members@.len() ==> is_writable((#[trigger] members@[i]).1@),
    ensures
        text@ == json_line(members_view(members@)),
        reads_back(text@, members_view(members@)),
{
    let object: serde_json::Map<String, Value> = members.iter().map(|(key, node)| (key.clone(), match node {
        JsonNode::Bool(value) => Value::from(*value),
        JsonNode::Number(Some(number), _) => Value::from(*number),
        JsonNode::Text(text) => Value::from(text.as_str()),
        _ => Value::Null,
    })).collect();
    serde_json::to_string(&object).expect("members with text keys can be written")
}

/// `serde_json::to_string` writes a text; what it is written as depends on the text alone.
#[verifier::external_body]
pub(crate) fn json_text(text: &str) -> (written: String)
    ensures
        written@ == json_text_of(text@),
{
    serde_json::to_string(text).expect("a text can be written")
}

/// The text that a value is, if it is one.
pub open spec fn text_of(node: Option<JsonView>) -> Option<Seq<char>> {
    match node {
        Some(JsonView::Text(text)) => Some(text),
        _ => None,
    }
}

/// The unsigned integer that a value is, if it is one.
pub open spec fn unsigned_of(node: Option<JsonView>) -> Option<u64> {
    match node {
        Some(JsonView::Number(unsigned, _)) => unsigned,
        _ => None,
    }
}

/// The signed integer that a value is, if it is one.
pub open spec fn signed_of(node: Option<JsonView>) -> Option<i64> {
    match node {
        Some(JsonView::Number(_, signed)) => signed,
        _ => None,
    }
}

/// The text that a value is, if it is one and it is not empty.
pub fn filled_text(node: Option<JsonNode>) -> (text: Option<String>)
    ensures
        match text {
            Some(text) => text_of(node_view(node)) == Some(text@) && text@.len() > 0,
            None => match text_of(node_view(node)) {
                Some(text) => text.len() == 0,
                None => true,
            },
        },
{
    match node {
        Some(JsonNode::Text(text)) => if text.as_str().is_empty() { None } else { Some(text) },
        _ => None,
    }
}

/// A member with an unsigned integer.
pub fn number_member(key: &str, n: u64) -> (member: (String, JsonNode))
    ensures
        member.0@ == key@,
        member.1@ == JsonView::Number(Some(n), as_signed(n)),
        is_writable(member.1@),
{
    let signed: Option<i64> = if n <= i64::MAX as u64 { Some(n as i64) } else { None };
    (key.to_owned(), JsonNode::Number(Some(n), signed))
}

/// A member with a text.
pub fn text_member(key: &str, text: &str) -> (member: (String, JsonNode))
    ensures
        member.0@ == key@,
        member.1@ == JsonView::Text(text@),
        is_writable(member.1@),
{
    (key.to_owned(), JsonNode::Text(text.to_owned()))
}

/// The value at `pointer`, none if the document cannot be read.
pub open spec fn found(document: Seq<char>, pointer: Seq<char>) -> Option<JsonView> {
    match json_node_at(document, pointer) {
        Ok(node) => node,
        Err(_) => None,
    }
}

/// Looks a value up; a document that cannot be read has none.
pub fn find(document: &str, pointer: &str) -> (node: Option<JsonNode>)
    ensures
        node_view(node) == found(document@, pointer@),
{
    match json_at(document, pointer) {
        Ok(node) => node,
        Err(_) => None,
    }
}

/// Looks up the value that the whole document is.
pub fn root(document: &str) -> (node: Result<Option<JsonNode>, String>)
    ensures
        match node {
            Ok(node) => json_node_at(document@, Seq::empty()) == Ok::<Option<JsonView>, Seq<char>>(
                node_view(node),
            ),
            Err(error) => json_node_at(document@, Seq::empty()) == Err::<
                Option<JsonView>,
                Seq<char>,
            >(error@),
        },
{
    proof {
        reveal_strlit("");
        assert(""@ =~= Seq::<char>::empty());
    }
    json_at(document, "")
}

} // verus!
