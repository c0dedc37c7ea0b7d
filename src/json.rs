//! The JSON values that the protocol reads, as plain data.

use vstd::prelude::*;

verus! {

/// A parsed JSON value.
#[derive(Debug)]
pub enum Json {
    Null,
    Bool(bool),
    /// A number that is a whole number from 0 up to `u64::MAX`.
    Unsigned(u64),
    /// Any other number (negative or fractional), kept as its decimal text.
    OtherNumber(String),
    Str(String),
    Array(Vec<Json>),
    /// The members of an object; a parsed object holds each key once.
    Object(Vec<(String, Json)>),
}

#[verifier::external_type_specification]
#[verifier::external_body]
pub struct ExJsonValue(serde_json::Value);

/// What serde_json makes of a text: `None` where the text is not one JSON value.
pub uninterp spec fn json_parse(text: Seq<char>) -> Option<Json>;

/// Relies on `serde_json::from_str` into a `serde_json::Value`, converted
/// member by member into a `Json`.
#[verifier::external_body]
pub(crate) fn parse_json(text: &str) -> (r: Option<Json>)
    ensures
        r == json_parse(text@),
{
    match serde_json::from_str::<serde_json::Value>(text) {
        Ok(v) => Some(json_from_value(v)),
        Err(_) => None,
    }
}

/// Converts a `serde_json::Value` into a `Json`, variant by variant.
#[verifier::external_body]
fn json_from_value(v: serde_json::Value) -> Json {
    match v {
        serde_json::Value::Null => Json::Null,
        serde_json::Value::Bool(b) => Json::Bool(b),
        serde_json::Value::Number(n) => match n.as_u64() {
            Some(u) => Json::Unsigned(u),
            None => Json::OtherNumber(n.to_string()),
        },
        serde_json::Value::String(s) => Json::Str(s),
        serde_json::Value::Array(a) => Json::Array(a.into_iter().map(json_from_value).collect()),
        serde_json::Value::Object(m) => Json::Object(m.into_iter().map(|(k, x)| (k, json_from_value(x))).collect()),
    }
}

/// The value stored under `key` among `members`, the first such member if any.
pub open spec fn member_in(members: Seq<(String, Json)>, key: Seq<char>) -> Option<Json>
    decreases members.len(),
{
    if members.len() == 0 {
        None
    } else if members[0].0@ == key {
        Some(members[0].1)
    } else {
        member_in(members.drop_first(), key)
    }
}

/// The value stored under `key` in `j`; `None` where `j` is no object or has
/// no such member.
pub open spec fn member(j: Json, key: Seq<char>) -> Option<Json> {
    match j {
        Json::Object(members) => member_in(members@, key),
        _ => None,
    }
}

/// The text stored under `key` in `j`, where that member is a string.
pub open spec fn member_text(j: Json, key: Seq<char>) -> Option<Seq<char>> {
    match member(j, key) {
        Some(Json::Str(s)) => Some(s@),
        _ => None,
    }
}

proof fn lemma_member_in_skip(members: Seq<(String, Json)>, key: Seq<char>, i: int)
    requires
        0 <= i <= members.len(),
        forall|k: int| 0 <= k < i ==> members[k].0@ != key,
    ensures
        member_in(members, key) == member_in(members.subrange(i, members.len() as int), key),
    decreases i,
{
    if i > 0 {
        lemma_member_in_skip(members.drop_first(), key, i - 1);
        assert(members.drop_first().subrange(i - 1, members.len() - 1) =~= members.subrange(
            i,
            members.len() as int,
        ));
    } else {
        assert(members.subrange(0, members.len() as int) =~= members);
    }
}

/// Finds the position of the first member of `members` named `key`.
pub fn find_member(members: &Vec<(String, Json)>, key: &str) -> (r: Option<usize>)
    ensures
        match r {
            Some(i) => i < members@.len() && member_in(members@, key@) == Some(members@[i as int].1),
            None => member_in(members@, key@) is None,
        },
{
    let mut i: usize = 0;
    while i < members.len()
        invariant
            i <= members@.len(),
            forall|k: int| 0 <= k < i ==> members@[k].0@ != key@,
        decreases members@.len() - i,
    {
        if crate::text::same_text(members[i].0.as_str(), key) {
            proof {
                lemma_member_in_skip(members@, key@, i as int);
            }
            return Some(i);
        }
        i = i + 1;
    }
    proof {
        lemma_member_in_skip(members@, key@, i as int);
    }
    None
}

/// The member of `j` named `key`, where `j` is an object that has one.
pub fn get_member<'a>(j: &'a Json, key: &str) -> (r: Option<&'a Json>)
    ensures
        match r {
            Some(v) => member(*j, key@) == Some(*v),
            None => member(*j, key@) is None,
        },
{
    match j {
        Json::Object(members) => match find_member(members, key) {
            Some(i) => Some(&members[i].1),
            None => None,
        },
        _ => None,
    }
}

/// The text of the member of `j` named `key`, where it is a string.
pub fn get_member_text(j: &Json, key: &str) -> (r: Option<String>)
    ensures
        match r {
            Some(s) => member_text(*j, key@) == Some(s@),
            None => member_text(*j, key@) is None,
        },
{
    match get_member(j, key) {
        Some(Json::Str(s)) => Some(s.clone()),
        _ => None,
    }
}

} // verus!
