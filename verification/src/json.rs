//! A model of JSON values, their compact text, and the reading of text into values.

use vstd::prelude::*;
use vstd::string::StringExecFns;

use crate::base16::hex_digit;

verus! {

/// A JSON value as a mathematical object.
pub enum JsonValue {
    Null,
    Bool(bool),
    /// A number that is an unsigned integer below 2^64.
    Uint(u64),
    /// Any other number, by its text.
    Decimal(Seq<char>),
    Str(Seq<char>),
    Array(Seq<JsonValue>),
    /// The members of an object, in order, each a name and a value.
    Object(Seq<(Seq<char>, JsonValue)>),
}

/// A JSON value held in memory.
#[derive(Debug, PartialEq, Eq)]
pub enum Json {
    Null,
    Bool(bool),
    /// A number that is an unsigned integer below 2^64.
    Uint(u64),
    /// Any other number, by its text.
    Decimal(String),
    Str(String),
    Array(Vec<Json>),
    /// The members of an object, in order, each a name and a value.
    Object(Vec<(String, Json)>),
}

/// The values that a list of values in memory stands for.
pub open spec fn item_values(items: Seq<Json>) -> Seq<JsonValue>
    decreases items, 0nat,
{
    Seq::new(
        items.len(),
        |i: int|
            if 0 <= i < items.len() {
                json_value(items[i])
            } else {
                JsonValue::Null
            },
    )
}

/// The members that a list of members in memory stands for.
pub open spec fn member_values(members: Seq<(String, Json)>) -> Seq<(Seq<char>, JsonValue)>
    decreases members, 0nat,
{
    Seq::new(
        members.len(),
        |i: int|
            if 0 <= i < members.len() {
                (members[i].0@, json_value(members[i].1))
            } else {
                (Seq::empty(), JsonValue::Null)
            },
    )
}

/// The value that a value in memory stands for.
pub open spec fn json_value(j: Json) -> JsonValue
    decreases j, 1nat,
{
    match j {
        Json::Null => JsonValue::Null,
        Json::Bool(b) => JsonValue::Bool(b),
        Json::Uint(n) => JsonValue::Uint(n),
        Json::Decimal(t) => JsonValue::Decimal(t@),
        Json::Str(s) => JsonValue::Str(s@),
        Json::Array(items) => JsonValue::Array(item_values(items@)),
        Json::Object(members) => JsonValue::Object(member_values(members@)),
    }
}

impl View for Json {
    type V = JsonValue;

    open spec fn view(&self) -> JsonValue {
        json_value(*self)
    }
}

/// The decimal digit for `d`, for `0 <= d < 10`.
pub open spec fn decimal_digit(d: int) -> char {
    seq!['0', '1', '2', '3', '4', '5', '6', '7', '8', '9'][d]
}

/// `n` in decimal, without sign or leading zeros.
pub open spec fn decimal_text(n: nat) -> Seq<char>
    decreases n,
{
    if n < 10 {
        seq![decimal_digit(n as int)]
    } else {
        decimal_text(n / 10) + seq![decimal_digit((n % 10) as int)]
    }
}

/// How one character stands inside a JSON string: the quotation mark and the backslash
/// behind a backslash, the control characters below U+0020 by their short escapes or as
/// `\u00` and two lower-case hexadecimal digits, every other character as itself.
pub open spec fn escaped_char(c: char) -> Seq<char> {
    if c == '"' {
        seq!['\\', '"']
    } else if c == '\\' {
        seq!['\\', '\\']
    } else if c == '\u{8}' {
        seq!['\\', 'b']
    } else if c == '\t' {
        seq!['\\', 't']
    } else if c == '\n' {
        seq!['\\', 'n']
    } else if c == '\u{c}' {
        seq!['\\', 'f']
    } else if c == '\r' {
        seq!['\\', 'r']
    } else if (c as int) < 0x20 {
        seq!['\\', 'u', '0', '0', hex_digit(c as int / 16), hex_digit(c as int % 16)]
    } else {
        seq![c]
    }
}

/// The characters of `s`, each as it stands inside a JSON string.
pub open spec fn escaped(s: Seq<char>) -> Seq<char>
    decreases s.len(),
{
    if s.len() == 0 {
        Seq::empty()
    } else {
        escaped(s.drop_last()) + escaped_char(s.last())
    }
}

/// `s` as a JSON string: escaped, between quotation marks.
pub open spec fn quoted(s: Seq<char>) -> Seq<char> {
    seq!['"'] + escaped(s) + seq!['"']
}

/// `parts` one after the other, with a comma between neighbours.
pub open spec fn joined(parts: Seq<Seq<char>>) -> Seq<char>
    decreases parts.len(),
{
    if parts.len() == 0 {
        Seq::empty()
    } else if parts.len() == 1 {
        parts[0]
    } else {
        joined(parts.drop_last()) + seq![','] + parts.last()
    }
}

/// The texts of the elements of an array, in order.
pub open spec fn item_texts(items: Seq<JsonValue>) -> Seq<Seq<char>>
    decreases items, 0nat,
{
    Seq::new(
        items.len(),
        |i: int|
            if 0 <= i < items.len() {
                json_text(items[i])
            } else {
                Seq::empty()
            },
    )
}

/// The texts of the members of an object, in order: the name as a string, a colon, the value.
pub open spec fn member_texts(members: Seq<(Seq<char>, JsonValue)>) -> Seq<Seq<char>>
    decreases members, 0nat,
{
    Seq::new(
        members.len(),
        |i: int|
            if 0 <= i < members.len() {
                quoted(members[i].0) + seq![':'] + json_text(members[i].1)
            } else {
                Seq::empty()
            },
    )
}

/// The compact text of a value: no white space, members and elements in their order.
pub open spec fn json_text(v: JsonValue) -> Seq<char>
    decreases v, 1nat,
{
    match v {
        JsonValue::Null => seq!['n', 'u', 'l', 'l'],
        JsonValue::Bool(b) => if b {
            seq!['t', 'r', 'u', 'e']
        } else {
            seq!['f', 'a', 'l', 's', 'e']
        },
        JsonValue::Uint(n) => decimal_text(n as nat),
        JsonValue::Decimal(t) => t,
        JsonValue::Str(s) => quoted(s),
        JsonValue::Array(items) => seq!['['] + joined(item_texts(items)) + seq![']'],
        JsonValue::Object(members) => seq!['{'] + joined(member_texts(members)) + seq!['}'],
    }
}

/// The value of the first member called `name`, where there is one.
pub open spec fn member(members: Seq<(Seq<char>, JsonValue)>, name: Seq<char>) -> Option<
    JsonValue,
>
    decreases members.len(),
{
    if members.len() == 0 {
        None
    } else if members[0].0 == name {
        Some(members[0].1)
    } else {
        member(members.drop_first(), name)
    }
}

/// The member at `at` is the one found by its name where no earlier member has that name.
pub proof fn lemma_member_at(members: Seq<(Seq<char>, JsonValue)>, name: Seq<char>, at: int)
    requires
        0 <= at < members.len(),
        members[at].0 == name,
        forall|k: int| 0 <= k < at ==> (#[trigger] members[k]).0 != name,
    ensures
        member(members, name) == Some(members[at].1),
    decreases at,
{
    if at > 0 {
        let rest = members.drop_first();
        assert(members[0].0 != name);
        assert forall|k: int| 0 <= k < at - 1 implies (#[trigger] rest[k]).0 != name by {
            assert(rest[k] == members[k + 1]);
        }
        lemma_member_at(rest, name, at - 1);
    }
}

/// The value of the member `name` of `v`, where `v` is an object that has one.
pub open spec fn field(v: JsonValue, name: Seq<char>) -> Option<JsonValue> {
    match v {
        JsonValue::Object(members) => member(members, name),
        _ => None,
    }
}

/// The one-character text of a decimal digit.
fn digit_str(d: u64) -> (text: &'static str)
    requires
        d < 10,
    ensures
        text@ == seq![decimal_digit(d as int)],
{
    proof {
        reveal_strlit("0");
        reveal_strlit("1");
        reveal_strlit("2");
        reveal_strlit("3");
        reveal_strlit("4");
        reveal_strlit("5");
        reveal_strlit("6");
        reveal_strlit("7");
        reveal_strlit("8");
        reveal_strlit("9");
    }
    let text = if d == 0 {
        "0"
    } else if d == 1 {
        "1"
    } else if d == 2 {
        "2"
    } else if d == 3 {
        "3"
    } else if d == 4 {
        "4"
    } else if d == 5 {
        "5"
    } else if d == 6 {
        "6"
    } else if d == 7 {
        "7"
    } else if d == 8 {
        "8"
    } else {
        "9"
    };
    assert(text@ =~= seq![decimal_digit(d as int)]);
    text
}

/// Writes `n` in decimal.
pub fn decimal(n: u64) -> (text: String)
    ensures
        text@ == decimal_text(n as nat),
    decreases n,
{
    if n < 10 {
        String::from_str(digit_str(n))
    } else {
        let mut text = decimal(n / 10);
        text.append(digit_str(n % 10));
        text
    }
}

/// `serde_json::to_string` on a string slice: the string between quotation marks, with
/// the quotation mark, the backslash and the control characters below U+0020 escaped
/// and every other character left as it is.
#[verifier::external_body]
pub(crate) fn quote(s: &str) -> (text: String)
    ensures
        text@ == quoted(s@),
{
    serde_json::to_string(s).unwrap_or_default()
}

impl Json {
    /// The member `name` of an object: the first one of that name.
    pub fn get(&self, name: &str) -> (found: Option<&Json>)
        ensures
            match field(self@, name@) {
                Some(v) => found matches Some(j) && j@ == v,
                None => found is None,
            },
    {
        match self {
            Json::Object(members) => {
                let wanted = String::from_str(name);
                let ghost held = self@->Object_0;
                assert(held.skip(0) =~= held);
                let mut i: usize = 0;
                while i < members.len()
                    invariant
                        0 <= i <= members.len(),
                        wanted@ == name@,
                        self@ == JsonValue::Object(held),
                        held == member_values(members@),
                        member(held, name@) == member(held.skip(i as int), name@),
                    decreases members.len() - i,
                {
                    let ghost rest = held.skip(i as int);
                    assert(rest[0] == held[i as int]);
                    assert(held[i as int] == (members@[i as int].0@, members@[i as int].1@));
                    assert(rest.drop_first() =~= held.skip(i + 1));
                    if members[i].0 == wanted {
                        return Some(&members[i].1);
                    }
                    i += 1;
                }
                None
            },
            _ => None,
        }
    }

    /// Writes the value as compact text.
    pub fn to_text(&self) -> (text: String)
        ensures
            text@ == json_text(self@),
        decreases self,
    {
        match self {
            Json::Null => {
                proof {
                    reveal_strlit("null");
                }
                let text = String::from_str("null");
                assert(text@ =~= json_text(self@));
                text
            },
            Json::Bool(b) => {
                proof {
                    reveal_strlit("true");
                    reveal_strlit("false");
                }
                let text = if *b {
                    String::from_str("true")
                } else {
                    String::from_str("false")
                };
                assert(text@ =~= json_text(self@));
                text
            },
            Json::Uint(n) => decimal(*n),
            Json::Decimal(t) => t.clone(),
            Json::Str(s) => quote(s.as_str()),
            Json::Array(items) => {
                proof {
                    reveal_strlit("[");
                    reveal_strlit("]");
                    reveal_strlit(",");
                }
                let ghost parts = item_texts(self@->Array_0);
                let mut text = String::from_str("[");
                let mut i: usize = 0;
                while i < items.len()
                    invariant
                        0 <= i <= items.len(),
                        *self == Json::Array(*items),
                        parts == item_texts(self@->Array_0),
                        parts.len() == items.len(),
                        text@ == seq!['['] + joined(parts.take(i as int)),
                    decreases items.len() - i,
                {
                    if i > 0 {
                        text.append(",");
                    }
                    let item = items[i].to_text();
                    text.append(item.as_str());
                    proof {
                        reveal_strlit(",");
                        reveal_strlit(":");
                        let before = parts.take(i as int);
                        let after = parts.take(i + 1);
                        assert(after.drop_last() =~= before);
                        assert(after.last() == parts[i as int]);
                        assert(parts[i as int] == json_text(items@[i as int]@));
                        assert(item@ == parts[i as int]);
                        if i == 0 {
                            assert(joined(before) =~= Seq::<char>::empty());
                            assert(joined(after) == parts[i as int]);
                        } else {
                            assert(joined(after) == joined(before) + seq![','] + parts[i as int]);
                        }
                        assert(text@ =~= seq!['['] + joined(after));
                    }
                    i += 1;
                }
                text.append("]");
                proof {
                    assert(parts.take(i as int) =~= parts);
                    assert(text@ =~= json_text(self@));
                }
                text
            },
            Json::Object(members) => {
                proof {
                    reveal_strlit("{");
                    reveal_strlit("}");
                    reveal_strlit(",");
                    reveal_strlit(":");
                }
                let ghost parts = member_texts(self@->Object_0);
                let mut text = String::from_str("{");
                let mut i: usize = 0;
                while i < members.len()
                    invariant
                        0 <= i <= members.len(),
                        *self == Json::Object(*members),
                        parts == member_texts(self@->Object_0),
                        parts.len() == members.len(),
                        text@ == seq!['{'] + joined(parts.take(i as int)),
                    decreases members.len() - i,
                {
                    if i > 0 {
                        text.append(",");
                    }
                    let mut item = quote(members[i].0.as_str());
                    item.append(":");
                    let value = members[i].1.to_text();
                    item.append(value.as_str());
                    text.append(item.as_str());
                    proof {
                        reveal_strlit(",");
                        reveal_strlit(":");
                        let before = parts.take(i as int);
                        let after = parts.take(i + 1);
                        assert(after.drop_last() =~= before);
                        assert(after.last() == parts[i as int]);
                        assert(parts[i as int] == quoted(members@[i as int].0@) + seq![':']
                            + json_text(members@[i as int].1@));
                        assert(item@ == parts[i as int]);
                        if i == 0 {
                            assert(joined(before) =~= Seq::<char>::empty());
                            assert(joined(after) == parts[i as int]);
                        } else {
                            assert(joined(after) == joined(before) + seq![','] + parts[i as int]);
                        }
                        assert(text@ =~= seq!['{'] + joined(after));
                    }
                    i += 1;
                }
                text.append("}");
                proof {
                    assert(parts.take(i as int) =~= parts);
                    assert(text@ =~= json_text(self@));
                }
                text
            },
        }
    }
}


/// What reading `text` as one JSON value gives; `None` where `text` is not such text.
pub uninterp spec fn json_parsed(text: Seq<char>) -> Option<JsonValue>;

/// The value that a `serde_json::Value` holds.
pub uninterp spec fn value_json(value: serde_json::Value) -> JsonValue;

/// `serde_json::Value`, as `serde_json::from_str` gives it.
#[verifier::external_type_specification]
#[verifier::external_body]
pub struct ExValue(serde_json::Value);

/// The top level of a `serde_json::Value`: its kind, and what it holds directly.
pub(crate) enum Node {
    Null,
    Bool(bool),
    Uint(u64),
    Decimal(String),
    Str(String),
    Array(Vec<serde_json::Value>),
    Object(Vec<(String, serde_json::Value)>),
}

/// Whether `node` is the top level of a value that holds `v`.
pub(crate) open spec fn is_top_level(v: JsonValue, node: Node) -> bool {
    match node {
        Node::Null => v == JsonValue::Null,
        Node::Bool(b) => v == JsonValue::Bool(b),
        Node::Uint(n) => v == JsonValue::Uint(n),
        Node::Decimal(t) => v == JsonValue::Decimal(t@),
        Node::Str(s) => v == JsonValue::Str(s@),
        Node::Array(items) => v == JsonValue::Array(
            Seq::new(items@.len(), |i: int| value_json(items@[i])),
        ),
        Node::Object(members) => v == JsonValue::Object(
            Seq::new(members@.len(), |i: int| (members@[i].0@, value_json(members@[i].1))),
        ),
    }
}

/// `serde_json::from_str` into a `serde_json::Value`: the value read from `text`, where
/// `text` is one well-formed JSON value, and nothing otherwise.
#[verifier::external_body]
pub(crate) fn read_value(text: &str) -> (value: Option<serde_json::Value>)
    ensures
        value.is_some() == json_parsed(text@).is_some(),
        value matches Some(v) ==> json_parsed(text@) == Some(value_json(v)),
{
    serde_json::from_str::<serde_json::Value>(text).ok()
}

/// Tells the variants of a `serde_json::Value` apart and hands out what the value holds
/// directly: a number as a `u64` where `Number::as_u64` gives one and by its own text
/// otherwise, the elements of an array and the members of an object in their order.
#[verifier::external_body]
pub(crate) fn top_level(value: &serde_json::Value) -> (node: Node)
    ensures
        is_top_level(value_json(*value), node),
{
    match value {
        serde_json::Value::Null => Node::Null,
        serde_json::Value::Bool(b) => Node::Bool(*b),
        serde_json::Value::Number(n) => match n.as_u64() {
            Some(u) => Node::Uint(u),
            None => Node::Decimal(n.to_string()),
        },
        serde_json::Value::String(s) => Node::Str(s.clone()),
        serde_json::Value::Array(items) => Node::Array(items.clone()),
        serde_json::Value::Object(members) => Node::Object(
            members.iter().map(|(name, member)| (name.clone(), member.clone())).collect(),
        ),
    }
}

/// Copies a `serde_json::Value` into a value of this library.
pub(crate) fn json_of(value: &serde_json::Value) -> (j: Json)
    ensures
        j@ == value_json(*value),
    decreases value_json(*value),
{
    match top_level(value) {
        Node::Null => Json::Null,
        Node::Bool(b) => Json::Bool(b),
        Node::Uint(n) => Json::Uint(n),
        Node::Decimal(t) => Json::Decimal(t),
        Node::Str(s) => Json::Str(s),
        Node::Array(items) => {
            let ghost held = value_json(*value)->Array_0;
            let mut out: Vec<Json> = Vec::new();
            let mut i: usize = 0;
            while i < items.len()
                invariant
                    0 <= i <= items.len(),
                    value_json(*value) == JsonValue::Array(held),
                    held.len() == items@.len(),
                    forall|k: int| 0 <= k < held.len() ==> held[k] == value_json(#[trigger] items@[k]),
                    out@.len() == i,
                    forall|k: int| 0 <= k < i ==> (#[trigger] out@[k])@ == held[k],
                decreases items.len() - i,
            {
                assert(held[i as int] == value_json(items@[i as int]));
                assert(decreases_to!(value_json(*value) => value_json(*value)->Array_0));
                assert(decreases_to!(held => held[i as int]));
                out.push(json_of(&items[i]));
                i += 1;
            }
            let j = Json::Array(out);
            assert(j@->Array_0 =~= held);
            j
        },
        Node::Object(members) => {
            let ghost held = value_json(*value)->Object_0;
            let mut out: Vec<(String, Json)> = Vec::new();
            let mut i: usize = 0;
            while i < members.len()
                invariant
                    0 <= i <= members.len(),
                    value_json(*value) == JsonValue::Object(held),
                    held.len() == members@.len(),
                    forall|k: int|
                        0 <= k < held.len() ==> held[k] == ((#[trigger] members@[k]).0@, value_json(
                            members@[k].1,
                        )),
                    out@.len() == i,
                    forall|k: int|
                        0 <= k < i ==> ((#[trigger] out@[k]).0@, out@[k].1@) == held[k],
                decreases members.len() - i,
            {
                assert(held[i as int].1 == value_json(members@[i as int].1));
                assert(decreases_to!(value_json(*value) => value_json(*value)->Object_0));
                assert(decreases_to!(held => held[i as int]));
                assert(decreases_to!(held[i as int] => held[i as int].1));
                let member = json_of(&members[i].1);
                out.push((members[i].0.clone(), member));
                i += 1;
            }
            let j = Json::Object(out);
            assert(j@->Object_0 =~= held);
            j
        },
    }
}

/// Reads `text` as one JSON value.
pub fn parse(text: &str) -> (value: Option<Json>)
    ensures
        value.is_some() == json_parsed(text@).is_some(),
        value matches Some(j) ==> json_parsed(text@) == Some(j@),
{
    match read_value(text) {
        Some(v) => Some(json_of(&v)),
        None => None,
    }
}

} // verus!
