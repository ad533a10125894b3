//! The JSON text of the credential store, read and written through
//! `serde_json`. An object is handed across as its list of members; a member
//! whose value is not a string carries no text.

use vstd::prelude::*;

verus! {

/// The error type of `serde_json`, carried through unread.
#[verifier::external_type_specification]
#[verifier::external_body]
pub struct ExJsonError(serde_json::Error);

/// One member of a parsed object: its key, and its text if it is a string.
pub type Member = (String, Option<String>);

/// The mathematical form of a parsed member.
pub type MemberView = (Seq<char>, Option<Seq<char>>);

/// What `serde_json` makes of a text read as an object: `None` where it
/// rejects the text, else the object's members.
pub uninterp spec fn json_members(text: Seq<char>) -> Option<Seq<MemberView>>;

/// The compact JSON text that `serde_json` writes for an object whose
/// members are the given keys with string values.
pub uninterp spec fn json_text(members: Seq<(Seq<char>, Seq<char>)>) -> Seq<char>;

/// The mathematical form of one member.
pub open spec fn member_view(m: Member) -> MemberView {
    (
        m.0@,
        match m.1 {
            Some(s) => Some(s@),
            None => None,
        },
    )
}

/// The mathematical form of a member list.
pub open spec fn members_view(members: Seq<Member>) -> Seq<MemberView> {
    members.map_values(|m: Member| member_view(m))
}

/// The mathematical form of a list of keys with string values.
pub open spec fn pairs_view(pairs: Seq<(String, String)>) -> Seq<(Seq<char>, Seq<char>)> {
    pairs.map_values(|p: (String, String)| (p.0@, p.1@))
}

/// The text of the member named `key`: that of its last occurrence, and
/// `None` where the key is absent or its value is not a string.
pub open spec fn lookup(members: Seq<MemberView>, key: Seq<char>) -> Option<Seq<char>>
    decreases members.len(),
{
    if members.len() == 0 {
        None
    } else if members.last().0 == key {
        members.last().1
    } else {
        lookup(members.drop_last(), key)
    }
}

/// The members that a parser hands out for an object written from the
/// given keys and string values, in the order written.
pub open spec fn members_of_pairs(pairs: Seq<(Seq<char>, Seq<char>)>) -> Seq<MemberView> {
    pairs.map_values(|p: (Seq<char>, Seq<char>)| (p.0, Some(p.1)))
}

/// Whether two member lists give every key the same text.
pub open spec fn same_members(a: Seq<MemberView>, b: Seq<MemberView>) -> bool {
    forall|key: Seq<char>| #[trigger] lookup(a, key) == lookup(b, key)
}

/// Calls `serde_json::from_str` at the type `serde_json::Map<String, Value>`
/// and hands the members out, each string value as its text and every other
/// value as `None`. Trusted: success and the members are a function of the
/// text alone.
#[verifier::external_body]
pub(crate) fn parse_object(text: &str) -> (out: Result<Vec<Member>, serde_json::Error>)
    ensures
        out is Ok <==> json_members(text@) is Some,
        out is Ok ==> Some(members_view(out->Ok_0@)) == json_members(text@),
{
    let map: serde_json::Map<String, serde_json::Value> = serde_json::from_str(text)?;
    Ok(map.into_iter().map(|(k, v)| (k, match v {
        serde_json::Value::Null => None,
        serde_json::Value::Bool(_) => None,
        serde_json::Value::Number(_) => None,
        serde_json::Value::String(s) => Some(s),
        serde_json::Value::Array(_) => None,
        serde_json::Value::Object(_) => None,
    })).collect())
}

/// Whether no key occurs twice among the pairs.
pub open spec fn distinct_keys(pairs: Seq<(Seq<char>, Seq<char>)>) -> bool {
    forall|i: int, j: int|
        0 <= i < j < pairs.len() ==> (#[trigger] pairs[i]).0 != (#[trigger] pairs[j]).0
}

/// Builds a `serde_json::Value::Object` from the pairs and formats it with
/// the `Display` of `serde_json::Value`, which writes compact JSON. Trusted:
/// the text is a function of the keys and values alone, and `serde_json`
/// reads its own output back: the text parses as an object in which every
/// key has the string value that the pairs gave it. The keys must differ
/// from one another, since which value a repeated key keeps is left open.
#[verifier::external_body]
pub(crate) fn render_object(pairs: &Vec<(String, String)>) -> (out: String)
    requires
        distinct_keys(pairs_view(pairs@)),
    ensures
        out@ == json_text(pairs_view(pairs@)),
        match json_members(out@) {
            Some(members) => same_members(members, members_of_pairs(pairs_view(pairs@))),
            None => false,
        },
{
    let map: serde_json::Map<String, serde_json::Value> = pairs.iter()
        .map(|p| (p.0.clone(), serde_json::Value::String(p.1.clone())))
        .collect();
    serde_json::Value::Object(map).to_string()
}

} // verus!
