//! A JSON document as plain values.
//!
//! Numbers keep their source text, so no value here is a float.
use vstd::prelude::*;

verus! {

#[derive(Debug, PartialEq, Eq)]
pub enum JsonValue {
    Null,
    Bool(bool),
    Number(String),
    String(String),
    Array(Vec<JsonValue>),
    /// Members in document order.
    Object(Vec<(String, JsonValue)>),
}

impl Clone for JsonValue {
    fn clone(&self) -> (r: Self)
        decreases self,
    {
        match self {
            JsonValue::Null => JsonValue::Null,
            JsonValue::Bool(b) => JsonValue::Bool(*b),
            JsonValue::Number(n) => JsonValue::Number(n.clone()),
            JsonValue::String(s) => JsonValue::String(s.clone()),
            JsonValue::Array(values) => {
                let mut r: Vec<JsonValue> = Vec::new();
                let mut i: usize = 0;
                while i < values.len()
                    invariant
                        0 <= i <= values@.len(),
                        *self == JsonValue::Array(*values),
                    decreases values@.len() - i,
                {
                    assert(decreases_to!(*self => self->Array_0));
                    assert(decreases_to!(*values => values@));
                    assert(decreases_to!(values@ => values@[i as int]));
                    assert(decreases_to!(*self => values@[i as int]));
                    r.push(values[i].clone());
                    i = i + 1;
                }
                JsonValue::Array(r)
            },
            JsonValue::Object(members) => {
                let mut r: Vec<(String, JsonValue)> = Vec::new();
                let mut i: usize = 0;
                while i < members.len()
                    invariant
                        0 <= i <= members@.len(),
                        *self == JsonValue::Object(*members),
                    decreases members@.len() - i,
                {
                    assert(decreases_to!(*self => self->Object_0));
                    assert(decreases_to!(*members => members@));
                    assert(decreases_to!(members@ => members@[i as int]));
                    assert(decreases_to!(members@[i as int] => members@[i as int].1));
                    assert(decreases_to!(*self => members@[i as int].1));
                    let v = members[i].1.clone();
                    r.push((members[i].0.clone(), v));
                    i = i + 1;
                }
                JsonValue::Object(r)
            },
        }
    }
}

impl JsonValue {
    /// The member `key` of an object (the last one, where a key repeats,
    /// as a JSON parser keeps it).
    pub open spec fn spec_get(self, key: Seq<char>) -> Option<JsonValue> {
        match self {
            JsonValue::Object(members) => member_of(members@, key),
            _ => None,
        }
    }

    /// The text of a string value.
    pub open spec fn spec_as_str(self) -> Option<Seq<char>> {
        match self {
            JsonValue::String(s) => Some(s@),
            _ => None,
        }
    }
}

/// The value of the last member named `key`.
pub open spec fn member_of(members: Seq<(String, JsonValue)>, key: Seq<char>) -> Option<JsonValue>
    decreases members.len(),
{
    if members.len() == 0 {
        None
    } else if members.last().0@ == key {
        Some(members.last().1)
    } else {
        member_of(members.drop_last(), key)
    }
}

/// The member `key` of an object value.
pub fn get<'a>(value: &'a JsonValue, key: &str) -> (r: Option<&'a JsonValue>)
    ensures
        match r {
            Some(v) => value.spec_get(key@) == Some(*v),
            None => value.spec_get(key@).is_none(),
        },
{
    match value {
        JsonValue::Object(members) => {
            let k = crate::text::chars_of(key);
            let mut i = members.len();
            assert(members@.subrange(0, i as int) =~= members@);
            assert(value.spec_get(key@) == member_of(members@, key@));
            while i > 0
                invariant
                    0 <= i <= members@.len(),
                    k@ == key@,
                    member_of(members@, key@) == member_of(members@.subrange(0, i as int), key@),
                    value.spec_get(key@) == member_of(members@, key@),
                decreases i,
            {
                let name = crate::text::chars_of(members[i - 1].0.as_str());
                let ghost pre = members@.subrange(0, i as int);
                assert(pre.drop_last() =~= members@.subrange(0, i - 1));
                assert(pre.last() == members@[i - 1]);
                if crate::text::eq_chars(&name, &k) {
                    return Some(&members[i - 1].1);
                }
                i = i - 1;
            }
            None
        },
        _ => None,
    }
}


// ---------------------------------------------------------------------------
// String literals

/// A lowercase hexadecimal digit.
pub open spec fn hex_digit(n: int) -> char {
    if n < 10 {
        (48 + n) as char
    } else {
        (87 + n) as char
    }
}

/// How one character is written inside a JSON string literal.
pub open spec fn json_escape(c: char) -> Seq<char> {
    if c == '"' {
        seq!['\\', '"']
    } else if c == '\\' {
        seq!['\\', '\\']
    } else if c == '\u{8}' {
        seq!['\\', 'b']
    } else if c == '\t' {
        seq!['\\', 't']
    } else if c == '\n' {
        seq!['\\', 'n']
    } else if c == '\u{c}' {
        seq!['\\', 'f']
    } else if c == '\r' {
        seq!['\\', 'r']
    } else if (c as int) < 32 {
        seq!['\\', 'u', '0', '0', hex_digit((c as int) / 16), hex_digit((c as int) % 16)]
    } else {
        seq![c]
    }
}

/// The characters of `s`, each escaped.
pub open spec fn json_escaped(s: Seq<char>) -> Seq<char>
    decreases s.len(),
{
    if s.len() == 0 {
        seq![]
    } else {
        json_escaped(s.drop_last()) + json_escape(s.last())
    }
}

/// `s` as a JSON string literal.
pub open spec fn json_quoted(s: Seq<char>) -> Seq<char> {
    seq!['"'] + json_escaped(s) + seq!['"']
}

/// `serde_json::to_string` on a string: the string as a JSON literal in
/// double quotes, with `"` and the backslash escaped by a backslash, the
/// control characters U+0008, U+0009, U+000A, U+000C and U+000D written as
/// a backslash and `b`, `t`, `n`, `f` or `r`, every other control character
/// below U+0020 as a backslash, `u00` and two lowercase hex digits, and all
/// else unchanged. Serializing a string cannot fail.
#[verifier::external_body]
pub(crate) fn json_string_literal(s: &str) -> (r: String)
    ensures
        r@ == json_quoted(s@),
{
    serde_json::to_string(s).unwrap_or_default()
}

} // verus!
