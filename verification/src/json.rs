//! What the session takes from `serde_json`: reading a frame's text as a JSON
//! object, looking a member up in it, and rendering a JSON document as
//! compact text. Nothing in this module is proved; the contracts here are
//! what the rest of the library believes of `serde_json`.

use vstd::prelude::*;

verus! {

/// `serde_json::Value`, a JSON document. The library looks into one only
/// through the wrappers below.
#[verifier::external_type_specification]
#[verifier::external_body]
pub struct ExJsonValue(serde_json::Value);

/// `serde_json::Map`, a JSON object. The library looks into one only through
/// the wrappers below.
#[verifier::external_type_specification]
#[verifier::external_body]
#[verifier::reject_recursive_types(K)]
#[verifier::reject_recursive_types(V)]
pub struct ExJsonMap<K, V>(serde_json::Map<K, V>);

/// `serde_json::Error`, why a text is no JSON. The library only tells it
/// from success.
#[verifier::external_type_specification]
#[verifier::external_body]
pub struct ExJsonError(serde_json::Error);

/// What a member of a JSON object holds, as far as a frame is concerned:
/// flags and texts with their value, everything else by its kind alone.
#[derive(Clone, Debug, PartialEq, Eq)]
pub enum Member {
    Null,
    Flag(bool),
    Number,
    Text(String),
    Array,
    Object,
}

/// The mathematical value of a [`Member`].
pub enum MemberView {
    Null,
    Flag(bool),
    Number,
    Text(Seq<char>),
    Array,
    Object,
}

impl View for Member {
    type V = MemberView;

    open spec fn view(&self) -> MemberView {
        match self {
            Member::Null => MemberView::Null,
            Member::Flag(b) => MemberView::Flag(*b),
            Member::Number => MemberView::Number,
            Member::Text(s) => MemberView::Text(s@),
            Member::Array => MemberView::Array,
            Member::Object => MemberView::Object,
        }
    }
}

/// The members of a JSON object: each key with what its value holds.
pub uninterp spec fn object_members(
    object: serde_json::Map<String, serde_json::Value>,
) -> Map<Seq<char>, MemberView>;

/// The members of the JSON object that a text denotes; `None` where
/// `serde_json::from_str` does not read the text as one JSON object.
pub uninterp spec fn parsed_object(text: Seq<char>) -> Option<Map<Seq<char>, MemberView>>;

/// What a JSON document holds, written as compact JSON text.
pub uninterp spec fn document_text(document: serde_json::Value) -> Seq<char>;

/// The compact JSON text of the document that the bytes denote; `None` where
/// `serde_json::from_slice` does not read the bytes as one JSON document.
pub uninterp spec fn parsed_document(bytes: Seq<u8>) -> Option<Seq<char>>;

/// The member of `members` under `key`, if there is one.
pub open spec fn member_at(members: Map<Seq<char>, MemberView>, key: Seq<char>) -> Option<
    MemberView,
> {
    if members.contains_key(key) {
        Some(members[key])
    } else {
        None
    }
}

/// The view of an optional member.
pub open spec fn member_view(member: Option<Member>) -> Option<MemberView> {
    match member {
        Some(m) => Some(m@),
        None => None,
    }
}

/// Calls `serde_json::from_str` at the type `serde_json::Map<String, Value>`.
/// Claimed: whether the call succeeds, and what the object then holds,
/// depends on the text alone; [`parsed_object`] is the name of that
/// dependence.
#[verifier::external_body]
pub(crate) fn parse_object(text: &str) -> (parsed: Result<
    serde_json::Map<String, serde_json::Value>,
    serde_json::Error,
>)
    ensures
        match parsed {
            Ok(object) => parsed_object(text@) == Some(object_members(object)),
            Err(_) => parsed_object(text@) is None,
        },
{
    serde_json::from_str::<serde_json::Map<String, serde_json::Value>>(text)
}

/// Calls `serde_json::Map::get` and tells the variants of the
/// `serde_json::Value` found apart. Claimed: the result is the entry of
/// [`object_members`] under the key, and `None` exactly when the object has
/// no such key.
#[verifier::external_body]
pub(crate) fn lookup(object: &serde_json::Map<String, serde_json::Value>, key: &str) -> (member:
    Option<Member>)
    ensures
        member_view(member) == member_at(object_members(*object), key@),
{
    match object.get(key) {
        None => None,
        Some(serde_json::Value::Null) => Some(Member::Null),
        Some(serde_json::Value::Bool(flag)) => Some(Member::Flag(*flag)),
        Some(serde_json::Value::Number(_)) => Some(Member::Number),
        Some(serde_json::Value::String(text)) => Some(Member::Text(text.clone())),
        Some(serde_json::Value::Array(_)) => Some(Member::Array),
        Some(serde_json::Value::Object(_)) => Some(Member::Object),
    }
}

/// Calls `serde_json::from_slice` at the type `serde_json::Value`. Claimed:
/// whether the call succeeds, and which document it then gives, depends on
/// the bytes alone; [`parsed_document`] is the name of that dependence.
#[verifier::external_body]
pub(crate) fn parse_document(bytes: &[u8]) -> (parsed: Result<serde_json::Value, serde_json::Error>)
    ensures
        match parsed {
            Ok(document) => parsed_document(bytes@) == Some(document_text(document)),
            Err(_) => parsed_document(bytes@) is None,
        },
{
    serde_json::from_slice::<serde_json::Value>(bytes)
}

/// Calls `to_string` on a `serde_json::Value`, which goes through its
/// `Display` and writes the document as compact JSON. Claimed: the text is
/// [`document_text`] of the document.
#[verifier::external_body]
pub(crate) fn render_document(document: &serde_json::Value) -> (text: String)
    ensures
        text@ == document_text(*document),
{
    document.to_string()
}

} // verus!
