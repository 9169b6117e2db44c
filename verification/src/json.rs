//! A JSON document model for the untyped parts of the Riot and Henrik
//! responses, and the reading of JSON text into it.
//!
//! Numbers are kept in the textual form `serde_json` prints them in, so the
//! model holds no floating-point value. Object members keep the order in
//! which the parser delivered them.
use vstd::prelude::*;

verus! {

/// A JSON value.
#[derive(Debug, PartialEq)]
pub enum JsonValue {
    Null,
    Bool(bool),
    Number(String),
    Str(String),
    Array(Vec<JsonValue>),
    Object(Vec<(String, JsonValue)>),
}

/// The value of the first member named `key`.
pub open spec fn entries_get(entries: Seq<(String, JsonValue)>, key: Seq<char>) -> Option<JsonValue>
    decreases entries.len(),
{
    if entries.len() == 0 {
        None
    } else if entries[0].0@ == key {
        Some(entries[0].1)
    } else {
        entries_get(entries.drop_first(), key)
    }
}

/// Position of the first member named `key`.
pub open spec fn entries_position(entries: Seq<(String, JsonValue)>, key: Seq<char>) -> Option<int>
    decreases entries.len(),
{
    if entries.len() == 0 {
        None
    } else if entries[0].0@ == key {
        Some(0)
    } else {
        match entries_position(entries.drop_first(), key) {
            Some(i) => Some(i + 1),
            None => None,
        }
    }
}

/// Members after setting `key` to `value`: the first member of that name is
/// replaced, or the member is appended when there is none.
pub open spec fn entries_insert(entries: Seq<(String, JsonValue)>, key: String, value: JsonValue) -> Seq<
    (String, JsonValue),
> {
    match entries_position(entries, key@) {
        Some(i) => entries.update(i, (key, value)),
        None => entries.push((key, value)),
    }
}

pub proof fn lemma_position_bounds(entries: Seq<(String, JsonValue)>, key: Seq<char>)
    ensures
        entries_position(entries, key) matches Some(i) ==> 0 <= i < entries.len() && entries[i].0@
            == key && entries_get(entries, key) == Some(entries[i].1),
        entries_position(entries, key) is None ==> entries_get(entries, key) is None,
        entries_position(entries, key) is None ==> forall|j: int|
            0 <= j < entries.len() ==> #[trigger] entries[j].0@ != key,
    decreases entries.len(),
{
    if entries.len() > 0 {
        lemma_position_bounds(entries.drop_first(), key);
        if entries_position(entries, key) is None {
            assert forall|j: int| 0 <= j < entries.len() implies #[trigger] entries[j].0@ != key by {
                if j > 0 {
                    assert(entries[j] == entries.drop_first()[j - 1]);
                }
            }
        }
    }
}

impl JsonValue {
    /// The member `key` of an object; `None` for a missing member or a
    /// value that is not an object.
    pub open spec fn field(self, key: Seq<char>) -> Option<JsonValue> {
        match self {
            JsonValue::Object(entries) => entries_get(entries@, key),
            _ => None,
        }
    }

    /// `value[key]` as `serde_json` indexes: `Null` where there is no such member.
    pub open spec fn at(self, key: Seq<char>) -> JsonValue {
        match self.field(key) {
            Some(v) => v,
            None => JsonValue::Null,
        }
    }

    /// The text of a string value.
    pub open spec fn str_value(self) -> Option<Seq<char>> {
        match self {
            JsonValue::Str(s) => Some(s@),
            _ => None,
        }
    }

    /// The member `key` of an object.
    pub fn get(&self, key: &str) -> (r: Option<&JsonValue>)
        ensures
            r matches Some(v) ==> self.field(key@) == Some(*v),
            r is None ==> self.field(key@) is None,
    {
        match self {
            JsonValue::Object(entries) => {
                proof {
                    lemma_position_bounds(entries@, key@);
                }
                match position_of(entries, key) {
                    Some(i) => Some(&entries[i].1),
                    None => None,
                }
            },
            _ => None,
        }
    }

    /// `value[key]`: the member, or `Null` where there is none.
    pub fn index(&self, key: &str) -> (r: &JsonValue)
        ensures
            *r == self.at(key@),
    {
        match self.get(key) {
            Some(v) => v,
            None => &JsonValue::Null,
        }
    }

    /// `value[key]`, taking the member out of the value.
    pub fn into_member(self, key: &str) -> (r: JsonValue)
        ensures
            r == self.at(key@),
    {
        match self {
            JsonValue::Object(entries) => {
                proof {
                    lemma_position_bounds(entries@, key@);
                }
                let mut entries = entries;
                match position_of(&entries, key) {
                    Some(i) => entries.remove(i).1,
                    None => JsonValue::Null,
                }
            },
            _ => JsonValue::Null,
        }
    }

    /// The text of a string value.
    pub fn as_str(&self) -> (r: Option<&str>)
        ensures
            r matches Some(t) ==> self.str_value() == Some(t@),
            r is None ==> self.str_value() is None,
    {
        match self {
            JsonValue::Str(s) => Some(s.as_str()),
            _ => None,
        }
    }

    /// The elements of an array.
    pub fn as_array(&self) -> (r: Option<&Vec<JsonValue>>)
        ensures
            r matches Some(a) ==> *self == JsonValue::Array(*a),
            r is None ==> !(*self is Array),
    {
        match self {
            JsonValue::Array(a) => Some(a),
            _ => None,
        }
    }

    /// Sets the member `key` of an object (`Map::insert`); values that are
    /// not objects are left unchanged.
    pub fn insert_field(&mut self, key: String, value: JsonValue)
        ensures
            *old(self) is Object ==> *final(self) is Object && final(self)->Object_0@
                == entries_insert(old(self)->Object_0@, key, value),
            !(*old(self) is Object) ==> *final(self) == *old(self),
    {
        match self {
            JsonValue::Object(entries) => {
                let pos = position_of(entries, key.as_str());
                proof {
                    lemma_position_bounds(entries@, key@);
                }
                match pos {
                    Some(i) => {
                        entries.set(i, (key, value));
                    },
                    None => {
                        entries.push((key, value));
                    },
                }
            },
            _ => {},
        }
    }
}

/// Position of the first member named `key`.
pub fn position_of(entries: &Vec<(String, JsonValue)>, key: &str) -> (r: Option<usize>)
    ensures
        r matches Some(i) ==> entries_position(entries@, key@) == Some(i as int),
        r is None ==> entries_position(entries@, key@) is None,
{
    let mut i: usize = 0;
    while i < entries.len()
        invariant
            i <= entries.len(),
            forall|j: int| 0 <= j < i ==> #[trigger] entries@[j].0@ != key@,
        decreases entries.len() - i,
    {
        if crate::text::str_eq(entries[i].0.as_str(), key) {
            proof {
                lemma_first_position(entries@, key@, i as int);
            }
            return Some(i);
        }
        i += 1;
    }
    proof {
        lemma_no_position(entries@, key@);
    }
    None
}

proof fn lemma_no_position(entries: Seq<(String, JsonValue)>, key: Seq<char>)
    requires
        forall|j: int| 0 <= j < entries.len() ==> #[trigger] entries[j].0@ != key,
    ensures
        entries_position(entries, key) is None,
    decreases entries.len(),
{
    if entries.len() > 0 {
        assert forall|j: int| 0 <= j < entries.len() - 1 implies #[trigger] entries.drop_first()[j].0@ != key by {
            assert(entries.drop_first()[j] == entries[j + 1]);
        }
        lemma_no_position(entries.drop_first(), key);
    }
}

proof fn lemma_first_position(entries: Seq<(String, JsonValue)>, key: Seq<char>, i: int)
    requires
        0 <= i < entries.len(),
        entries[i].0@ == key,
        forall|j: int| 0 <= j < i ==> #[trigger] entries[j].0@ != key,
    ensures
        entries_position(entries, key) == Some(i),
    decreases i,
{
    if i > 0 {
        assert forall|j: int| 0 <= j < i - 1 implies #[trigger] entries.drop_first()[j].0@ != key by {
            assert(entries.drop_first()[j] == entries[j + 1]);
        }
        lemma_first_position(entries.drop_first(), key, i - 1);
    }
}

/// The JSON value that `serde_json` reads from `text`, or the message of its
/// error.
pub uninterp spec fn json_text_parse(text: Seq<char>) -> Result<JsonValue, Seq<char>>;

/// The parsed value of `serde_json::Value`, node by node.
#[verifier::external_type_specification]
#[verifier::external_body]
pub struct ExSerdeJsonValue(serde_json::Value);

/// `serde_json::from_str::<serde_json::Value>`: reads `text` as JSON.
#[verifier::external_body]
pub(crate) fn parse_json(text: &str) -> (r: Result<JsonValue, String>)
    ensures
        r is Ok <==> json_text_parse(text@) is Ok,
        r matches Ok(v) ==> json_text_parse(text@)->Ok_0 == v,
        r matches Err(e) ==> json_text_parse(text@)->Err_0 == e@,
{
    match serde_json::from_str::<serde_json::Value>(text) {
        Ok(v) => Ok(from_serde_value(v)),
        Err(e) => Err(e.to_string()),
    }
}

/// Moves a `serde_json::Value` into the library's JSON model, node by node;
/// numbers keep the text `serde_json` prints for them.
#[verifier::external_body]
fn from_serde_value(v: serde_json::Value) -> JsonValue {
    match v {
        serde_json::Value::Null => JsonValue::Null,
        serde_json::Value::Bool(b) => JsonValue::Bool(b),
        serde_json::Value::Number(n) => JsonValue::Number(n.to_string()),
        serde_json::Value::String(s) => JsonValue::Str(s),
        serde_json::Value::Array(a) => JsonValue::Array(a.into_iter().map(from_serde_value).collect()),
        serde_json::Value::Object(m) => JsonValue::Object(
            m.into_iter().map(|(k, x)| (k, from_serde_value(x))).collect(),
        ),
    }
}

proof fn lemma_get_first(entries: Seq<(String, JsonValue)>, key: Seq<char>, i: int)
    requires
        0 <= i < entries.len(),
        entries[i].0@ == key,
        forall|j: int| 0 <= j < i ==> #[trigger] entries[j].0@ != key,
    ensures
        entries_get(entries, key) == Some(entries[i].1),
    decreases i,
{
    if i > 0 {
        assert forall|j: int| 0 <= j < i - 1 implies #[trigger] entries.drop_first()[j].0@ != key by {
            assert(entries.drop_first()[j] == entries[j + 1]);
        }
        lemma_get_first(entries.drop_first(), key, i - 1);
    }
}

/// Setting a member and reading it back gives the value set.
pub proof fn law_insert_then_get(entries: Seq<(String, JsonValue)>, key: String, value: JsonValue)
    ensures
        entries_get(entries_insert(entries, key, value), key@) == Some(value),
{
    lemma_position_bounds(entries, key@);
    let after = entries_insert(entries, key, value);
    match entries_position(entries, key@) {
        Some(i) => {
            assert(after[i] == (key, value));
            lemma_before_position(entries, key@, i);
            assert forall|j: int| 0 <= j < i implies #[trigger] after[j].0@ != key@ by {
                assert(after[j] == entries[j]);
            }
            lemma_get_first(after, key@, i);
        },
        None => {
            let n = entries.len() as int;
            assert(after[n] == (key, value));
            assert forall|j: int| 0 <= j < n implies #[trigger] after[j].0@ != key@ by {
                assert(after[j] == entries[j]);
            }
            lemma_get_first(after, key@, n);
        },
    }
}

proof fn lemma_before_position(entries: Seq<(String, JsonValue)>, key: Seq<char>, i: int)
    requires
        entries_position(entries, key) == Some(i),
    ensures
        forall|j: int| 0 <= j < i ==> #[trigger] entries[j].0@ != key,
    decreases entries.len(),
{
    lemma_position_bounds(entries, key);
    if entries.len() > 0 && entries[0].0@ != key {
        lemma_before_position(entries.drop_first(), key, i - 1);
        assert forall|j: int| 0 <= j < i implies #[trigger] entries[j].0@ != key by {
            if j > 0 {
                assert(entries.drop_first()[j - 1] == entries[j]);
            }
        }
    }
}

} // verus!
