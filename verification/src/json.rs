//! A JSON document tree, produced by the YAML and JSON parsers of serde,
//! and the lookups the summaries make in it.

use vstd::prelude::*;

verus! {

/// A parsed JSON/YAML document. Numbers keep their value when it fits in
/// an `i64` (otherwise `Number(None)`); object fields keep the parser's order.
#[derive(Debug)]
pub enum JsonValue {
    Null,
    Bool(bool),
    Number(Option<i64>),
    Str(String),
    Array(Vec<JsonValue>),
    Object(Vec<JsonField>),
}

/// A named member of a JSON object.
#[derive(Debug)]
pub struct JsonField {
    pub name: String,
    pub value: JsonValue,
}

/// The document tree that `serde_yaml` parses from a text, as a
/// `serde_json::Value`, or the text of its error.
pub uninterp spec fn yaml_parse(text: Seq<char>) -> Result<JsonValue, Seq<char>>;

/// The document tree that `serde_json` parses from a text, if it parses.
pub uninterp spec fn json_parse(text: Seq<char>) -> Option<JsonValue>;

#[verifier::external_type_specification]
#[verifier::external_body]
pub struct ExSerdeJsonValue(serde_json::Value);

/// Converts serde_json's value tree into a `JsonValue`, node for node.
#[verifier::external_body]
fn tree_of(v: serde_json::Value) -> JsonValue {
    match v {
        serde_json::Value::Null => JsonValue::Null,
        serde_json::Value::Bool(b) => JsonValue::Bool(b),
        serde_json::Value::Number(n) => JsonValue::Number(n.as_i64()),
        serde_json::Value::String(s) => JsonValue::Str(s),
        serde_json::Value::Array(a) => JsonValue::Array(a.into_iter().map(tree_of).collect()),
        serde_json::Value::Object(o) => JsonValue::Object(o.into_iter().map(|(k, x)| JsonField { name: k, value: tree_of(x) }).collect()),
    }
}

/// Calls `serde_yaml::from_str::<serde_json::Value>`; the result (or the
/// text of the error) is named by `yaml_parse` of the input.
#[verifier::external_body]
pub(crate) fn parse_yaml(text: &str) -> (r: Result<JsonValue, String>)
    ensures
        yaml_parse(text@) == match r {
            Ok(v) => Ok::<JsonValue, Seq<char>>(v),
            Err(e) => Err::<JsonValue, Seq<char>>(e@),
        },
{
    match serde_yaml::from_str::<serde_json::Value>(text) {
        Ok(v) => Ok(tree_of(v)),
        Err(e) => Err(e.to_string()),
    }
}

/// Calls `serde_json::from_str::<serde_json::Value>`; the result is named
/// by `json_parse` of the input.
#[verifier::external_body]
pub(crate) fn parse_json(text: &str) -> (r: Option<JsonValue>)
    ensures
        r == json_parse(text@),
{
    serde_json::from_str::<serde_json::Value>(text).ok().map(tree_of)
}

/// Position of the first field named `key` at or after `from`, or `-1`.
pub open spec fn field_position(fields: Seq<JsonField>, key: Seq<char>, from: int) -> int
    decreases fields.len() - from,
{
    if from < 0 || from >= fields.len() {
        -1
    } else if fields[from].name@ == key {
        from
    } else {
        field_position(fields, key, from + 1)
    }
}

/// The member `key` of an object, if the value is an object that has it.
pub open spec fn json_get(v: JsonValue, key: Seq<char>) -> Option<JsonValue> {
    match v {
        JsonValue::Object(fields) => {
            let i = field_position(fields@, key, 0);
            if i < 0 { None } else { Some(fields@[i].value) }
        },
        _ => None,
    }
}

/// The member `key` of a value, `Null` when absent (indexing a document).
pub open spec fn json_at(v: JsonValue, key: Seq<char>) -> JsonValue {
    match json_get(v, key) {
        Some(x) => x,
        None => JsonValue::Null,
    }
}

/// The string of a value, if it is a string.
pub open spec fn json_str(v: JsonValue) -> Option<String> {
    match v {
        JsonValue::Str(s) => Some(s),
        _ => None,
    }
}

/// The integer of a value, if it is a number that fits in an `i64`.
pub open spec fn json_i64(v: JsonValue) -> Option<i64> {
    match v {
        JsonValue::Number(n) => n,
        _ => None,
    }
}

proof fn lemma_field_position(fields: Seq<JsonField>, key: Seq<char>, from: int)
    requires
        0 <= from,
    ensures
        ({
            let i = field_position(fields, key, from);
            (i == -1 && forall|j: int| from <= j < fields.len() ==> fields[j].name@ != key)
            || (from <= i < fields.len() && fields[i].name@ == key
                && forall|j: int| from <= j < i ==> fields[j].name@ != key)
        }),
    decreases fields.len() - from,
{
    if from < fields.len() && fields[from].name@ != key {
        lemma_field_position(fields, key, from + 1);
    }
}

fn text_eq(a: &String, b: &str) -> (r: bool)
    ensures
        r == (a@ == b@),
{
    let b2 = b.to_owned();
    *a == b2
}

impl JsonValue {
    /// The member `key` of an object (`None` for other values or a missing key).
    pub fn get(&self, key: &str) -> (r: Option<&JsonValue>)
        ensures
            match r {
                Some(x) => json_get(*self, key@) == Some(*x),
                None => json_get(*self, key@) is None,
            },
    {
        match self {
            JsonValue::Object(fields) => {
                proof { lemma_field_position(fields@, key@, 0); }
                let mut i: usize = 0;
                while i < fields.len()
                    invariant
                        *self == JsonValue::Object(*fields),
                        i <= fields@.len(),
                        forall|j: int| 0 <= j < i ==> fields@[j].name@ != key@,
                    decreases fields@.len() - i,
                {
                    if text_eq(&fields[i].name, key) {
                        proof {
                            lemma_field_position(fields@, key@, 0);
                            let p = field_position(fields@, key@, 0);
                            if p != i as int {
                                if p < i as int {
                                    assert(fields@[p].name@ != key@);
                                } else {
                                    assert(fields@[i as int].name@ != key@);
                                }
                            }
                        }
                        return Some(&fields[i].value);
                    }
                    i = i + 1;
                }
                None
            },
            _ => None,
        }
    }

    /// The string of a string value.
    pub fn as_str(&self) -> (r: Option<&String>)
        ensures
            match r {
                Some(s) => json_str(*self) == Some(*s),
                None => json_str(*self) is None,
            },
    {
        match self {
            JsonValue::Str(s) => Some(s),
            _ => None,
        }
    }

    /// The integer of a number value that fits in an `i64`.
    pub fn as_i64(&self) -> (r: Option<i64>)
        ensures
            r == json_i64(*self),
    {
        match self {
            JsonValue::Number(n) => *n,
            _ => None,
        }
    }

    /// The string at member `key`, if the member exists and is a string.
    pub fn str_at(&self, key: &str) -> (r: Option<String>)
        ensures
            r == json_str(json_at(*self, key@)),
    {
        match self.get(key) {
            Some(v) => match v.as_str() {
                Some(s) => Some(s.clone()),
                None => None,
            },
            None => None,
        }
    }
}



/// Mathematical form of a JSON value: texts and sequences in place of
/// strings and vectors.
pub enum JsonSpec {
    Null,
    Bool(bool),
    Number(Option<i64>),
    Str(Seq<char>),
    Array(Seq<JsonSpec>),
    Object(Seq<(Seq<char>, JsonSpec)>),
}

/// The mathematical form of a JSON value.
pub open spec fn json_view(v: JsonValue) -> JsonSpec
    decreases v,
{
    match v {
        JsonValue::Null => JsonSpec::Null,
        JsonValue::Bool(b) => JsonSpec::Bool(b),
        JsonValue::Number(n) => JsonSpec::Number(n),
        JsonValue::Str(s) => JsonSpec::Str(s@),
        JsonValue::Array(a) => JsonSpec::Array(Seq::new(a@.len(), |i: int| {
            if 0 <= i < a@.len() { json_view(a@[i]) } else { JsonSpec::Null }
        })),
        JsonValue::Object(fs) => JsonSpec::Object(Seq::new(fs@.len(), |i: int| {
            if 0 <= i < fs@.len() { (fs@[i].name@, json_view(fs@[i].value)) } else { (Seq::empty(), JsonSpec::Null) }
        })),
    }
}

} // verus!
