//! Types of the standard library and of the HTTP and JSON crates that values
//! of this library carry, and the JSON object calls that fill a request body.
use vstd::prelude::*;

verus! {

/// `std::path::PathBuf`, carried through unread.
#[verifier::external_type_specification]
#[verifier::external_body]
pub struct ExPathBuf(std::path::PathBuf);

/// `PathBuf::clone` gives the same path again.
pub assume_specification[ <std::path::PathBuf as Clone>::clone ](
    path: &std::path::PathBuf,
) -> (copy: std::path::PathBuf)
    ensures
        copy == *path,
;

/// `std::io::Error`, carried through unread but for its display text.
#[verifier::external_type_specification]
#[verifier::external_body]
pub struct ExIoError(std::io::Error);

/// `reqwest::Error`, carried through unread but for its display text.
#[verifier::external_type_specification]
#[verifier::external_body]
pub struct ExHttpError(reqwest::Error);

/// `serde_json::Value`, the values of a JSON object.
#[verifier::external_type_specification]
#[verifier::external_body]
pub struct ExJsonValue(serde_json::Value);

/// `serde_json::Map`, a JSON object.
#[verifier::external_type_specification]
#[verifier::external_body]
#[verifier::reject_recursive_types(K)]
#[verifier::reject_recursive_types(V)]
pub struct ExJsonMap<K, V>(serde_json::Map<K, V>);

/// A member's value in a request body.
#[derive(Debug)]
pub enum Member {
    Text(String),
    Number(u32),
}

/// What a member's value says.
pub enum MemberView {
    Text(Seq<char>),
    Number(nat),
}

impl View for Member {
    type V = MemberView;

    open spec fn view(&self) -> MemberView {
        match self {
            Member::Text(text) => MemberView::Text(text@),
            Member::Number(number) => MemberView::Number(*number as nat),
        }
    }
}

/// The members of a JSON object by name.
pub type Members = Map<Seq<char>, MemberView>;

/// An object without members.
pub open spec fn no_members() -> Members {
    Map::empty()
}

/// The members that a JSON object holds, by name.
pub uninterp spec fn json_members(
    object: serde_json::Map<String, serde_json::Value>,
) -> Map<Seq<char>, MemberView>;

/// `serde_json::Map::new` makes an object without members.
#[verifier::external_body]
pub(crate) fn new_object() -> (object: serde_json::Map<String, serde_json::Value>)
    ensures
        json_members(object) == no_members(),
{
    serde_json::Map::new()
}

/// `serde_json::Map::insert` sets the member `name` to `member`, whether or not
/// the object had a member of that name, and leaves the other members as they were.
#[verifier::external_body]
pub(crate) fn set_member(
    object: &mut serde_json::Map<String, serde_json::Value>,
    name: &str,
    member: Member,
)
    ensures
        json_members(*final(object)) == json_members(*old(object)).insert(name@, member@),
{
    let value = match member {
        Member::Text(text) => serde_json::Value::String(text),
        Member::Number(number) => serde_json::Value::from(number),
    };
    object.insert(name.to_string(), value);
}

/// A member says its text or its number, whole.
pub proof fn law_member_values(text: String, number: u32)
    ensures
        Member::Text(text)@ == MemberView::Text(text@),
        Member::Number(number)@ == MemberView::Number(number as nat),
{
}

/// An object without members has no member of any name.
pub proof fn law_no_members(name: Seq<char>)
    ensures
        !no_members().dom().contains(name),
{
}


} // verus!
