//! The JSON documents that the game's web services answer with, as plain
//! values, and the reads the bot makes of them.
use vstd::prelude::*;
use crate::text::str_equal;

verus! {

/// A JSON number, told apart the way the bot reads it: a non-negative
/// integer, a negative integer, or a number with a fraction or exponent
/// (whose value the bot never reads, so it is not kept).
#[derive(Clone, Debug, PartialEq, Eq)]
pub enum JsonNumber {
    PosInt(u64),
    NegInt(i64),
    Float,
}

/// A JSON value. An object keeps its members in order as pairs of a key and
/// a value.
pub enum Json {
    Null,
    Bool(bool),
    Number(JsonNumber),
    String(String),
    Array(Vec<Json>),
    Object(Vec<(String, Json)>),
}

/// The value of the first member of `members` whose key is `key`, if any.
pub open spec fn lookup(members: Seq<(String, Json)>, key: Seq<char>) -> Option<Json>
    decreases members.len(),
{
    if members.len() == 0 {
        None
    } else if members[0].0@ == key {
        Some(members[0].1)
    } else {
        lookup(members.drop_first(), key)
    }
}

impl Json {
    /// The members, when the value is an object.
    pub open spec fn object_members(self) -> Option<Seq<(String, Json)>> {
        match self {
            Json::Object(members) => Some(members@),
            _ => None,
        }
    }

    /// The items, when the value is an array.
    pub open spec fn array_items(self) -> Option<Seq<Json>> {
        match self {
            Json::Array(items) => Some(items@),
            _ => None,
        }
    }

    /// The number, when the value is a non-negative integer that fits in a `u64`.
    pub open spec fn u64_value(self) -> Option<u64> {
        match self {
            Json::Number(JsonNumber::PosInt(n)) => Some(n),
            _ => None,
        }
    }

    /// The text, when the value is a string.
    pub open spec fn str_value(self) -> Option<Seq<char>> {
        match self {
            Json::String(s) => Some(s@),
            _ => None,
        }
    }

    /// The members of an object; `None` for any other value.
    pub fn as_object(&self) -> (members: Option<&Vec<(String, Json)>>)
        ensures
            match members {
                Some(m) => self.object_members() == Some(m@),
                None => self.object_members() is None,
            },
    {
        match self {
            Json::Object(members) => Some(members),
            _ => None,
        }
    }

    /// The items of an array; `None` for any other value.
    pub fn as_array(&self) -> (items: Option<&Vec<Json>>)
        ensures
            match items {
                Some(v) => self.array_items() == Some(v@),
                None => self.array_items() is None,
            },
    {
        match self {
            Json::Array(items) => Some(items),
            _ => None,
        }
    }

    /// The value of a non-negative integer; `None` for any other value.
    pub fn as_u64(&self) -> (n: Option<u64>)
        ensures
            n == self.u64_value(),
    {
        match self {
            Json::Number(JsonNumber::PosInt(n)) => Some(*n),
            _ => None,
        }
    }

    /// The text of a string; `None` for any other value.
    pub fn as_str(&self) -> (text: Option<&str>)
        ensures
            match text {
                Some(t) => self.str_value() == Some(t@),
                None => self.str_value() is None,
            },
    {
        match self {
            Json::String(s) => Some(s.as_str()),
            _ => None,
        }
    }
}

/// A lookup finds nothing exactly when no member has the key, and otherwise
/// finds the value of the first member that has it.
pub proof fn lemma_lookup_finds_first_member(members: Seq<(String, Json)>, key: Seq<char>)
    ensures
        lookup(members, key) is None <==> forall|i: int|
            0 <= i < members.len() ==> (#[trigger] members[i]).0@ != key,
        lookup(members, key) is Some ==> exists|i: int|
            0 <= i < members.len() && (#[trigger] members[i]).0@ == key && lookup(members, key)
                == Some(members[i].1) && forall|j: int|
                0 <= j < i ==> (#[trigger] members[j]).0@ != key,
    decreases members.len(),
{
    if members.len() > 0 {
        let rest = members.drop_first();
        lemma_lookup_finds_first_member(rest, key);
        if members[0].0@ == key {
            assert(members[0].0@ == key);
        } else {
            if lookup(rest, key) is Some {
                let k = choose|i: int|
                    0 <= i < rest.len() && (#[trigger] rest[i]).0@ == key && lookup(rest, key)
                        == Some(rest[i].1) && forall|j: int|
                        0 <= j < i ==> (#[trigger] rest[j]).0@ != key;
                assert(members[k + 1] == rest[k]);
                assert forall|j: int| 0 <= j < k + 1 implies (#[trigger] members[j]).0@ != key by {
                    if j > 0 {
                        assert(members[j] == rest[j - 1]);
                    }
                }
            } else {
                assert forall|i: int| 0 <= i < members.len() implies (#[trigger] members[i]).0@
                    != key by {
                    if i > 0 {
                        assert(members[i] == rest[i - 1]);
                    }
                }
            }
        }
    }
}

/// Each read of a value gives what the value holds when it has that kind,
/// and nothing otherwise.
pub proof fn lemma_reads_by_kind(v: Json)
    ensures
        v matches Json::Number(JsonNumber::PosInt(n)) ==> v.u64_value() == Some(n),
        !(v matches Json::Number(JsonNumber::PosInt(_))) ==> v.u64_value() is None,
        v matches Json::String(t) ==> v.str_value() == Some(t@),
        !(v matches Json::String(_)) ==> v.str_value() is None,
        v matches Json::Array(items) ==> v.array_items() == Some(items@),
        !(v matches Json::Array(_)) ==> v.array_items() is None,
        v matches Json::Object(members) ==> v.object_members() == Some(members@),
        !(v matches Json::Object(_)) ==> v.object_members() is None,
{
}

/// The value of the first member of `members` with the key `key`.
pub fn object_get<'a>(members: &'a Vec<(String, Json)>, key: &str) -> (found: Option<&'a Json>)
    ensures
        match found {
            Some(v) => lookup(members@, key@) == Some(*v),
            None => lookup(members@, key@) is None,
        },
{
    let mut i: usize = 0;
    assert(members@.skip(0) =~= members@);
    while i < members.len()
        invariant
            0 <= i <= members.len(),
            lookup(members@, key@) == lookup(members@.skip(i as int), key@),
        decreases members.len() - i,
    {
        if str_equal(members[i].0.as_str(), key) {
            return Some(&members[i].1);
        }
        assert(members@.skip(i as int).drop_first() =~= members@.skip(i + 1));
        i += 1;
    }
    None
}

} // verus!
