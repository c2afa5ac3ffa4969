//! JSON documents as plain trees, and the three ways the agent reads them:
//! a member of an object, an element of an array, the text of a string.

use vstd::prelude::*;

verus! {

/// A JSON value. An object keeps its members as a list of pairs; a number
/// keeps the text that writes it.
#[derive(Debug)]
pub enum Json {
    Null,
    Bool(bool),
    Number(String),
    Text(String),
    Array(Vec<Json>),
    Object(Vec<(String, Json)>),
}

/// `serde_json::Error`, carried from the parser to where it is dropped.
#[verifier::external_type_specification]
#[verifier::external_body]
pub struct ExJsonError(serde_json::Error);

/// `serde_json::Value`, carried from the parser to where it is moved into a
/// `Json`.
#[verifier::external_type_specification]
#[verifier::external_body]
pub struct ExJsonValue(serde_json::Value);

/// The tree that `serde_json` reads from `body`, or `None` where it rejects
/// the bytes.
pub uninterp spec fn json_document(body: Seq<u8>) -> Option<Json>;

/// Moves a `serde_json::Value` into a tree, variant by variant: members and
/// elements in the order in which `serde_json` hands them out, a number as
/// the text that `serde_json` prints for it. Nothing is claimed of the
/// result.
#[verifier::external_body]
fn json_from_value(value: serde_json::Value) -> Json {
    match value {
        serde_json::Value::Null => Json::Null,
        serde_json::Value::Bool(flag) => Json::Bool(flag),
        serde_json::Value::Number(number) => Json::Number(number.to_string()),
        serde_json::Value::String(text) => Json::Text(text),
        serde_json::Value::Array(items) => Json::Array(
            items.into_iter().map(json_from_value).collect(),
        ),
        serde_json::Value::Object(members) => Json::Object(
            members.into_iter().map(|(key, member)| (key, json_from_value(member))).collect(),
        ),
    }
}

/// Calls `serde_json::from_slice` for a `serde_json::Value`. Claimed: the
/// call fails or succeeds on the bytes alone, and the tree it yields is a
/// function of the bytes alone, here called `json_document`.
#[verifier::external_body]
fn json_from_slice(body: &[u8]) -> (parsed: Result<Json, serde_json::Error>)
    ensures
        parsed matches Ok(document) ==> json_document(body@) == Some(document),
        parsed is Err ==> json_document(body@) is None,
{
    serde_json::from_slice::<serde_json::Value>(body).map(json_from_value)
}

/// Reads `body` as one JSON document.
pub fn parse_document(body: &[u8]) -> (document: Option<Json>)
    ensures
        document == json_document(body@),
{
    match json_from_slice(body) {
        Ok(document) => Some(document),
        Err(_) => None,
    }
}

/// The position of the first pair in `members` whose key is `key`, or the
/// length of `members` where there is none.
pub open spec fn member_position(members: Seq<(String, Json)>, key: Seq<char>) -> int
    decreases members.len(),
{
    if members.len() == 0 {
        0
    } else if members[0].0@ == key {
        0
    } else {
        1 + member_position(members.drop_first(), key)
    }
}

/// The position found is within bounds or one past the end; every pair
/// before it has another key; and the pair at it, if any, has the key.
pub proof fn lemma_member_position(members: Seq<(String, Json)>, key: Seq<char>)
    ensures
        0 <= member_position(members, key) <= members.len(),
        forall|i: int|
            0 <= i < member_position(members, key) ==> (#[trigger] members[i]).0@ != key,
        member_position(members, key) < members.len() ==> members[member_position(
            members,
            key,
        )].0@ == key,
    decreases members.len(),
{
    if members.len() > 0 && members[0].0@ != key {
        let rest = members.drop_first();
        lemma_member_position(rest, key);
        assert forall|i: int| 0 <= i < member_position(members, key) implies (
        #[trigger] members[i]).0@ != key by {
            if i > 0 {
                assert(members[i] == rest[i - 1]);
            }
        }
        assert(member_position(members, key) < members.len() ==> members[member_position(
            members,
            key,
        )] == rest[member_position(rest, key)]);
    }
}

/// A position at which `key` stands and before which it does not is the
/// position found.
pub proof fn lemma_member_position_is(members: Seq<(String, Json)>, key: Seq<char>, at: int)
    requires
        0 <= at <= members.len(),
        forall|i: int| 0 <= i < at ==> (#[trigger] members[i]).0@ != key,
        at < members.len() ==> members[at].0@ == key,
    ensures
        member_position(members, key) == at,
{
    lemma_member_position(members, key);
    let found = member_position(members, key);
    if found < at {
        assert(members[found].0@ != key);
    } else if at < found {
        assert(members[at].0@ != key);
    }
}

impl Json {
    /// The member of an object under `key`: the value of the first pair with
    /// that key. `None` for an object without the key and for anything that
    /// is no object.
    pub open spec fn member(self, key: Seq<char>) -> Option<Json> {
        match self {
            Json::Object(members) => {
                let at = member_position(members@, key);
                if at < members@.len() {
                    Some(members@[at].1)
                } else {
                    None
                }
            },
            _ => None,
        }
    }

    /// The element of an array at `index`. `None` past the end and for
    /// anything that is no array.
    pub open spec fn element(self, index: int) -> Option<Json> {
        match self {
            Json::Array(items) => if 0 <= index < items@.len() {
                Some(items@[index])
            } else {
                None
            },
            _ => None,
        }
    }

    /// The text of a string. `None` for anything that is no string.
    pub open spec fn text(self) -> Option<Seq<char>> {
        match self {
            Json::Text(text) => Some(text@),
            _ => None,
        }
    }

    /// Looks up a member of an object.
    pub fn get_member(&self, key: &str) -> (found: Option<&Json>)
        ensures
            found matches Some(member) ==> self.member(key@) == Some(*member),
            found is None ==> self.member(key@) is None,
    {
        match self {
            Json::Object(members) => {
                let at = find_member(members, key);
                if at < members.len() {
                    Some(&members[at].1)
                } else {
                    None
                }
            },
            _ => None,
        }
    }

    /// Looks up an element of an array.
    pub fn get_element(&self, index: usize) -> (found: Option<&Json>)
        ensures
            found matches Some(item) ==> self.element(index as int) == Some(*item),
            found is None ==> self.element(index as int) is None,
    {
        match self {
            Json::Array(items) => if index < items.len() {
                Some(&items[index])
            } else {
                None
            },
            _ => None,
        }
    }

    /// Reads the text of a string.
    pub fn as_text(&self) -> (found: Option<&str>)
        ensures
            found matches Some(text) ==> self.text() == Some(text@),
            found is None ==> self.text() is None,
    {
        match self {
            Json::Text(text) => Some(text.as_str()),
            _ => None,
        }
    }
}

/// Finds the first pair in `members` whose key is `key`.
pub fn find_member(members: &Vec<(String, Json)>, key: &str) -> (at: usize)
    ensures
        at == member_position(members@, key@),
{
    let mut at: usize = 0;
    while at < members.len()
        invariant
            at <= members.len(),
            forall|i: int| 0 <= i < at ==> (#[trigger] members@[i]).0@ != key@,
        decreases members.len() - at,
    {
        if str_equal(members[at].0.as_str(), key) {
            proof {
                lemma_member_position_is(members@, key@, at as int);
            }
            return at;
        }
        at += 1;
    }
    proof {
        lemma_member_position_is(members@, key@, at as int);
    }
    at
}

/// Whether two strings hold the same characters.
pub fn str_equal(left: &str, right: &str) -> (same: bool)
    ensures
        same == (left@ == right@),
{
    let left_owned = left.to_owned();
    let right_owned = right.to_owned();
    left_owned == right_owned
}

} // verus!
