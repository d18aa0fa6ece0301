//! A JSON document as a tree of plain values, and typed reading of the
//! members of an object.

use vstd::prelude::*;
use vstd::string::StringExecFns;
use serde_json::Value;

verus! {

/// A JSON number. `text` is the number in decimal notation; `unsigned` is
/// present where the number is an integer from 0 to 2^64 - 1, `signed`
/// where it is an integer from -2^63 to 2^63 - 1.
#[derive(Debug, Clone, PartialEq, Eq)]
pub struct JsonNumber {
    pub text: String,
    pub unsigned: Option<u64>,
    pub signed: Option<i64>,
}

/// A JSON document. In a document that the parser gives, the members of an
/// object are in ascending order of their keys and no key occurs twice.
#[derive(Debug, PartialEq, Eq)]
pub enum Json {
    Null,
    Bool(bool),
    Number(JsonNumber),
    Text(String),
    Array(Vec<Json>),
    Object(Vec<(String, Json)>),
}

/// `serde_json::Value`, a parsed document as the parser holds it.
#[verifier::external_type_specification]
#[verifier::external_body]
pub struct ExValue(Value);

/// The tree that a parsed document holds.
pub uninterp spec fn tree_of(v: Value) -> Json;

/// The document that a text is, where it is one JSON document; where it is
/// not, the parser's account of what is wrong with it, and where.
pub uninterp spec fn json_of_text(text: Seq<char>) -> Result<Json, Seq<char>>;

/// `serde_json::from_str` at `Value`: the parsed document where the text is
/// one JSON document; else the error, as `to_string` renders it.
#[verifier::external_body]
fn read_value(text: &str) -> (r: Result<Value, String>)
    ensures
        match r {
            Ok(v) => json_of_text(text@) == Ok::<Json, Seq<char>>(tree_of(v)),
            Err(message) => json_of_text(text@) == Err::<Json, Seq<char>>(message@),
        },
{
    serde_json::from_str::<Value>(text).map_err(|err| err.to_string())
}

/// Moves a `serde_json::Value` into a tree, variant for variant. Of a
/// number it keeps what `Number::to_string`, `as_u64` and `as_i64` give; the
/// items of an array and the members of an object stay in the order in
/// which the value iterates.
#[verifier::external_body]
fn import_value(v: Value) -> (j: Json)
    ensures
        j == tree_of(v),
{
    match v {
        Value::Null => Json::Null,
        Value::Bool(b) => Json::Bool(b),
        Value::Number(n) => Json::Number(
            JsonNumber { text: n.to_string(), unsigned: n.as_u64(), signed: n.as_i64() },
        ),
        Value::String(s) => Json::Text(s),
        Value::Array(a) => Json::Array(a.into_iter().map(import_value).collect()),
        Value::Object(m) => Json::Object(m.into_iter().map(|(k, x)| (k, import_value(x))).collect()),
    }
}

/// Parses a text as one JSON document. A text that is none gives the
/// parser's message.
pub fn parse_json(text: &str) -> (r: Result<Json, String>)
    ensures
        match r {
            Ok(j) => json_of_text(text@) == Ok::<Json, Seq<char>>(j),
            Err(message) => json_of_text(text@) == Err::<Json, Seq<char>>(message@),
        },
{
    match read_value(text) {
        Ok(v) => Ok(import_value(v)),
        Err(message) => Err(message),
    }
}

/// The value of the first member with the given key.
pub open spec fn lookup(members: Seq<(String, Json)>, key: Seq<char>) -> Option<Json>
    decreases members.len(),
{
    if members.len() == 0 {
        None
    } else if members[0].0@ == key {
        Some(members[0].1)
    } else {
        lookup(members.skip(1), key)
    }
}

/// A member under another key changes nothing for a key, wherever it
/// stands among the members: what a reader does not ask for, it does not see.
pub proof fn lookup_ignores_other_keys(
    members: Seq<(String, Json)>,
    at: int,
    extra: (String, Json),
    key: Seq<char>,
)
    requires
        0 <= at <= members.len(),
        extra.0@ != key,
    ensures
        lookup(members.insert(at, extra), key) == lookup(members, key),
    decreases members.len(),
{
    let longer = members.insert(at, extra);
    if at == 0 {
        assert(longer.skip(1) =~= members);
    } else {
        assert(longer[0] == members[0]);
        assert(longer.skip(1) =~= members.skip(1).insert(at - 1, extra));
        lookup_ignores_other_keys(members.skip(1), at - 1, extra, key);
    }
}

impl Json {
    /// The member of an object with the given key. `null` counts as no
    /// member; a document that is no object has no members.
    pub open spec fn field(self, key: Seq<char>) -> Option<Json> {
        match self {
            Json::Object(members) => match lookup(members@, key) {
                Some(Json::Null) => None,
                other => other,
            },
            _ => None,
        }
    }

    /// The document as an integer from 0 to 2^64 - 1.
    pub open spec fn as_u64(self) -> Option<u64> {
        match self {
            Json::Number(n) => n.unsigned,
            _ => None,
        }
    }

    /// The document as an integer from 0 to 2^32 - 1.
    pub open spec fn as_u32(self) -> Option<u32> {
        match self.as_u64() {
            Some(n) => if n <= u32::MAX {
                Some(n as u32)
            } else {
                None
            },
            None => None,
        }
    }

    /// The document as an integer from -2^31 to 2^31 - 1.
    pub open spec fn as_i32(self) -> Option<i32> {
        match self {
            Json::Number(n) => match n.signed {
                Some(i) => if i32::MIN <= i <= i32::MAX {
                    Some(i as i32)
                } else {
                    None
                },
                None => None,
            },
            _ => None,
        }
    }

    /// The document as a boolean.
    pub open spec fn as_bool(self) -> Option<bool> {
        match self {
            Json::Bool(b) => Some(b),
            _ => None,
        }
    }

    /// The document as a text.
    pub open spec fn as_text(self) -> Option<Seq<char>> {
        match self {
            Json::Text(s) => Some(s@),
            _ => None,
        }
    }

    /// The document as a number of any kind, in decimal notation.
    pub open spec fn as_real(self) -> Option<Seq<char>> {
        match self {
            Json::Number(n) => Some(n.text@),
            _ => None,
        }
    }

    /// The items of the document, where it is an array.
    pub open spec fn as_items(self) -> Option<Seq<Json>> {
        match self {
            Json::Array(items) => Some(items@),
            _ => None,
        }
    }

    /// Finds the member with the given key. A member that is `null` is not
    /// found.
    pub fn get(&self, key: &str) -> (r: Option<&Json>)
        ensures
            match r {
                Some(v) => self.field(key@) == Some(*v),
                None => self.field(key@) is None,
            },
    {
        match self {
            Json::Object(members) => {
                let wanted = String::from_str(key);
                let mut i: usize = 0;
                assert(members@.skip(0) =~= members@);
                while i < members.len()
                    invariant
                        i <= members@.len(),
                        wanted@ == key@,
                        *self == Json::Object(*members),
                        lookup(members@, key@) == lookup(members@.skip(i as int), key@),
                    decreases members@.len() - i,
                {
                    assert(members@.skip(i as int)[0] == members@[i as int]);
                    assert(members@.skip(i as int).skip(1) =~= members@.skip(i + 1));
                    if members[i].0 == wanted {
                        let found = &members[i].1;
                        assert(lookup(members@, key@) == Some(*found));
                        return match found {
                            Json::Null => None,
                            _ => Some(found),
                        };
                    }
                    i += 1;
                }
                None
            },
            _ => None,
        }
    }
}

} // verus!
