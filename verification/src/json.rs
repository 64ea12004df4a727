//! A JSON document as plain values, and the lookups the project makes on it
//! (the `get`, `as_str`, `as_bool` and `as_array` of `serde_json::Value`).
//!
//! Numbers keep their text: no decision here reads a number.

use vstd::prelude::*;
use crate::text::str_eq;

verus! {

/// A JSON value. Object members keep their order; a key is looked up by
/// its first member.
#[derive(Debug)]
pub enum Json {
    Null,
    Bool(bool),
    Number(String),
    Str(String),
    Array(Vec<Json>),
    Object(Vec<(String, Json)>),
}

/// The value of the first member named `key`.
pub open spec fn members_lookup(members: Seq<(String, Json)>, key: Seq<char>) -> Option<Json>
    decreases members.len(),
{
    if members.len() == 0 {
        None
    } else if members[0].0@ == key {
        Some(members[0].1)
    } else {
        members_lookup(members.drop_first(), key)
    }
}

/// `value.get(key)`: the member `key` of an object; nothing for any other value.
pub open spec fn json_get(value: Json, key: Seq<char>) -> Option<Json> {
    match value {
        Json::Object(members) => members_lookup(members@, key),
        _ => None,
    }
}

/// `value.as_str()`.
pub open spec fn json_str(value: Json) -> Option<Seq<char>> {
    match value {
        Json::Str(s) => Some(s@),
        _ => None,
    }
}

/// `value.get(key).and_then(as_str)`.
pub open spec fn json_get_str(value: Json, key: Seq<char>) -> Option<Seq<char>> {
    match json_get(value, key) {
        Some(v) => json_str(v),
        None => None,
    }
}

/// `value.as_bool()`.
pub open spec fn json_bool(value: Json) -> Option<bool> {
    match value {
        Json::Bool(b) => Some(b),
        _ => None,
    }
}

/// An object's member `key` is the value of its first member of that name:
/// the one at `i` when it is so named and no earlier one is; nothing when no
/// member has that name.
pub proof fn law_members_lookup_is_first(members: Seq<(String, Json)>, key: Seq<char>, i: int)
    ensures
        0 <= i < members.len() && members[i].0@ == key && (forall|j: int| 0 <= j < i ==> (
        #[trigger] members[j]).0@ != key) ==> members_lookup(members, key) == Some(members[i].1),
        (forall|j: int| 0 <= j < members.len() ==> (#[trigger] members[j]).0@ != key) ==> members_lookup(
            members,
            key,
        ) is None,
    decreases members.len(),
{
    if members.len() > 0 {
        law_members_lookup_is_first(members.drop_first(), key, i - 1);
        if i > 0 && 0 <= i < members.len() && members[i].0@ == key && (forall|j: int| 0 <= j < i ==> (
        #[trigger] members[j]).0@ != key) {
            assert(members[0].0@ != key);
            assert(members.drop_first()[i - 1] == members[i]);
            assert forall|j: int| 0 <= j < i - 1 implies (#[trigger] members.drop_first()[j]).0@ != key by {
                assert(members.drop_first()[j] == members[j + 1]);
            }
        }
        if forall|j: int| 0 <= j < members.len() ==> (#[trigger] members[j]).0@ != key {
            assert(members[0].0@ != key);
            assert forall|j: int| 0 <= j < members.drop_first().len() implies (
            #[trigger] members.drop_first()[j]).0@ != key by {
                assert(members.drop_first()[j] == members[j + 1]);
            }
        }
    }
}

proof fn lemma_members_lookup_skip(members: Seq<(String, Json)>, key: Seq<char>, i: int)
    requires
        0 <= i < members.len(),
    ensures
        members_lookup(members.subrange(i, members.len() as int), key) == (if members[i].0@ == key {
            Some(members[i].1)
        } else {
            members_lookup(members.subrange(i + 1, members.len() as int), key)
        }),
{
    assert(members.subrange(i, members.len() as int).drop_first() =~= members.subrange(
        i + 1,
        members.len() as int,
    ));
}

impl Json {
    /// The member `key` of an object.
    pub fn get(&self, key: &str) -> (r: Option<&Json>)
        ensures
            match r {
                Some(v) => json_get(*self, key@) == Some(*v),
                None => json_get(*self, key@).is_none(),
            },
    {
        match self {
            Json::Object(members) => {
                let mut i: usize = 0;
                assert(members@.subrange(0, members@.len() as int) =~= members@);
                while i < members.len()
                    invariant
                        *self == Json::Object(*members),
                        i <= members.len(),
                        members_lookup(members@, key@) == members_lookup(
                            members@.subrange(i as int, members@.len() as int),
                            key@,
                        ),
                    decreases members.len() - i,
                {
                    proof {
                        lemma_members_lookup_skip(members@, key@, i as int);
                    }
                    if str_eq(members[i].0.as_str(), key) {
                        return Some(&members[i].1);
                    }
                    i = i + 1;
                }
                None
            },
            _ => None,
        }
    }

    /// The text of a string value.
    pub fn as_str(&self) -> (r: Option<&String>)
        ensures
            match r {
                Some(s) => json_str(*self) == Some(s@),
                None => json_str(*self).is_none(),
            },
    {
        match self {
            Json::Str(s) => Some(s),
            _ => None,
        }
    }

    /// The value of a boolean.
    pub fn as_bool(&self) -> (r: Option<bool>)
        ensures
            r == json_bool(*self),
    {
        match self {
            Json::Bool(b) => Some(*b),
            _ => None,
        }
    }

    /// The elements of an array.
    pub fn as_array(&self) -> (r: Option<&Vec<Json>>)
        ensures
            match r {
                Some(v) => *self == Json::Array(*v),
                None => !(*self is Array),
            },
    {
        match self {
            Json::Array(v) => Some(v),
            _ => None,
        }
    }

    /// `self.get(key).and_then(as_str)`, copied out.
    pub fn get_str(&self, key: &str) -> (r: Option<String>)
        ensures
            match r {
                Some(s) => json_get_str(*self, key@) == Some(s@),
                None => json_get_str(*self, key@).is_none(),
            },
    {
        match self.get(key) {
            Some(v) => match v.as_str() {
                Some(s) => Some(s.clone()),
                None => None,
            },
            None => None,
        }
    }
}

} // verus!
