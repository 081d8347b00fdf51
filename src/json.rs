use vstd::prelude::*;

verus! {

/// A JSON number as the parser reports it: a non-negative integer, a negative
/// integer, or any other number kept as its shortest decimal text.
#[derive(Debug, Clone, PartialEq)]
pub enum JsonNumber {
    PosInt(u64),
    NegInt(i64),
    Float(String),
}

/// A parsed JSON document. Object members keep the order the parser gave them.
#[derive(Debug)]
pub enum Json {
    Null,
    Bool(bool),
    Number(JsonNumber),
    Str(String),
    Array(Vec<Json>),
    Object(Vec<(String, Json)>),
}

/// Why a sub-document does not have the shape a caller asked for.
#[derive(Debug, Clone, PartialEq)]
pub enum ShapeError {
    NotAnObject,
    MissingField(String),
    InvalidType(String),
}

/// The value of member `k` among `s`; where a key repeats, the last one counts,
/// as it does when a parser inserts members into a map one after another.
pub open spec fn lookup(s: Seq<(String, Json)>, k: Seq<char>) -> Option<Json>
    decreases s.len(),
{
    if s.len() == 0 {
        None
    } else if s.last().0@ == k {
        Some(s.last().1)
    } else {
        lookup(s.drop_last(), k)
    }
}

/// Member `k` of `v`, where `v` is an object.
pub open spec fn member(v: Json, k: Seq<char>) -> Option<Json> {
    match v {
        Json::Object(entries) => lookup(entries@, k),
        _ => None,
    }
}

/// Members of `s` but those under key `k`, in their order.
pub open spec fn drop_key(s: Seq<(String, Json)>, k: Seq<char>) -> Seq<(String, Json)>
    decreases s.len(),
{
    if s.len() == 0 {
        s
    } else if s.last().0@ == k {
        drop_key(s.drop_last(), k)
    } else {
        drop_key(s.drop_last(), k).push(s.last())
    }
}

/// A key that `drop_key` removed is gone; every other key keeps its value.
pub proof fn lemma_drop_key_lookup(s: Seq<(String, Json)>, k: Seq<char>, n: Seq<char>)
    ensures
        lookup(drop_key(s, k), n) == if n == k {
            None
        } else {
            lookup(s, n)
        },
    decreases s.len(),
{
    if s.len() > 0 {
        lemma_drop_key_lookup(s.drop_last(), k, n);
        if s.last().0@ != k {
            assert(drop_key(s, k).drop_last() == drop_key(s.drop_last(), k));
        }
    }
}

/// Position of the member that `lookup` finds under `key`.
pub fn key_index(entries: &Vec<(String, Json)>, key: &String) -> (r: Option<usize>)
    ensures
        match r {
            Some(i) => i < entries@.len() && lookup(entries@, key@) == Some(entries@[i as int].1),
            None => lookup(entries@, key@) is None,
        },
{
    let mut i: usize = entries.len();
    assert(entries@.subrange(0, i as int) == entries@);
    while i > 0
        invariant
            i <= entries@.len(),
            lookup(entries@, key@) == lookup(entries@.subrange(0, i as int), key@),
        decreases i,
    {
        let ghost pre = entries@.subrange(0, i as int);
        assert(pre.drop_last() == entries@.subrange(0, i - 1));
        if entries[i - 1].0 == *key {
            return Some(i - 1);
        }
        i = i - 1;
    }
    assert(entries@.subrange(0, 0).len() == 0);
    None
}

impl Json {
    /// Member `key` of this value, where it is an object.
    pub fn get(&self, key: &str) -> (r: Option<&Json>)
        ensures
            match member(*self, key@) {
                Some(v) => r == Some(&v),
                None => r is None,
            },
    {
        match self {
            Json::Object(entries) => {
                let k = key.to_owned();
                match key_index(entries, &k) {
                    Some(i) => Some(&entries[i].1),
                    None => None,
                }
            },
            _ => None,
        }
    }
}

/// A value that can be read out of a JSON sub-document of a given shape.
pub trait FromJson: Sized {
    /// The value that `v` holds, where it has this shape.
    spec fn spec_from_json(v: Json) -> Option<Self>;

    fn from_json(v: &Json) -> (r: Result<Self, ShapeError>)
        ensures
            match r {
                Ok(x) => Self::spec_from_json(*v) == Some(x),
                Err(_) => Self::spec_from_json(*v) is None,
            },
    ;
}

/// A number as an unsigned machine integer, where it is a non-negative integer.
pub open spec fn usize_of(n: JsonNumber) -> Option<usize> {
    match n {
        JsonNumber::PosInt(u) => if u <= usize::MAX {
            Some(u as usize)
        } else {
            None
        },
        JsonNumber::NegInt(i) => if 0 <= i <= usize::MAX {
            Some(i as usize)
        } else {
            None
        },
        JsonNumber::Float(_) => None,
    }
}

/// A number as a signed 64-bit integer, where it is an integer in range.
pub open spec fn i64_of(n: JsonNumber) -> Option<i64> {
    match n {
        JsonNumber::PosInt(u) => if u <= i64::MAX {
            Some(u as i64)
        } else {
            None
        },
        JsonNumber::NegInt(i) => Some(i),
        JsonNumber::Float(_) => None,
    }
}

pub fn usize_from(n: &JsonNumber) -> (r: Option<usize>)
    ensures
        r == usize_of(*n),
{
    match n {
        JsonNumber::PosInt(u) => if *u <= usize::MAX as u64 {
            Some(*u as usize)
        } else {
            None
        },
        JsonNumber::NegInt(i) => if *i >= 0 && *i as u64 <= usize::MAX as u64 {
            Some(*i as usize)
        } else {
            None
        },
        JsonNumber::Float(_) => None,
    }
}

pub fn i64_from(n: &JsonNumber) -> (r: Option<i64>)
    ensures
        r == i64_of(*n),
{
    match n {
        JsonNumber::PosInt(u) => if *u <= i64::MAX as u64 {
            Some(*u as i64)
        } else {
            None
        },
        JsonNumber::NegInt(i) => Some(*i),
        JsonNumber::Float(_) => None,
    }
}

/// Boolean member `key` of object `v`.
pub fn bool_member(v: &Json, key: &str) -> (r: Result<bool, ShapeError>)
    ensures
        match member(*v, key@) {
            Some(Json::Bool(b)) => r == Ok::<bool, ShapeError>(b),
            _ => r is Err,
        },
{
    match v {
        Json::Object(_) => match v.get(key) {
            Some(Json::Bool(b)) => Ok(*b),
            Some(_) => Err(ShapeError::InvalidType(key.to_owned())),
            None => Err(ShapeError::MissingField(key.to_owned())),
        },
        _ => Err(ShapeError::NotAnObject),
    }
}

/// String member `key` of object `v`.
pub fn string_member(v: &Json, key: &str) -> (r: Result<String, ShapeError>)
    ensures
        match member(*v, key@) {
            Some(Json::Str(s)) => r == Ok::<String, ShapeError>(s),
            _ => r is Err,
        },
{
    match v {
        Json::Object(_) => match v.get(key) {
            Some(Json::Str(s)) => Ok(s.clone()),
            Some(_) => Err(ShapeError::InvalidType(key.to_owned())),
            None => Err(ShapeError::MissingField(key.to_owned())),
        },
        _ => Err(ShapeError::NotAnObject),
    }
}

/// Non-negative integer member `key` of object `v`.
pub fn usize_member(v: &Json, key: &str) -> (r: Result<usize, ShapeError>)
    ensures
        match member(*v, key@) {
            Some(Json::Number(n)) => match usize_of(n) {
                Some(u) => r == Ok::<usize, ShapeError>(u),
                None => r is Err,
            },
            _ => r is Err,
        },
{
    match v {
        Json::Object(_) => match v.get(key) {
            Some(Json::Number(n)) => match usize_from(n) {
                Some(u) => Ok(u),
                None => Err(ShapeError::InvalidType(key.to_owned())),
            },
            Some(_) => Err(ShapeError::InvalidType(key.to_owned())),
            None => Err(ShapeError::MissingField(key.to_owned())),
        },
        _ => Err(ShapeError::NotAnObject),
    }
}

/// What the parser makes of `bytes`: a document, or nothing where they are not
/// well-formed JSON text.
pub uninterp spec fn parsed_document(bytes: Seq<u8>) -> Option<Json>;

#[verifier::external_type_specification]
#[verifier::external_body]
pub struct ExJsonError(serde_json::Error);

#[verifier::external_type_specification]
#[verifier::external_body]
pub struct ExJsonValue(serde_json::Value);

/// Relies on serde_json::Error::line: the line at which parsing stopped.
pub assume_specification[ serde_json::Error::line ](e: &serde_json::Error) -> usize;

/// Relies on serde_json::Error::column: the column at which parsing stopped.
pub assume_specification[ serde_json::Error::column ](e: &serde_json::Error) -> usize;

/// Relies on serde_json::from_slice into serde_json::Value: the document that
/// the bytes hold, a function of the bytes alone; an error where they are not
/// one well-formed JSON document.
#[verifier::external_body]
pub(crate) fn parse_document(bytes: &[u8]) -> (r: Result<Json, serde_json::Error>)
    ensures
        match r {
            Ok(doc) => parsed_document(bytes@) == Some(doc),
            Err(_) => parsed_document(bytes@) is None,
        },
{
    serde_json::from_slice::<serde_json::Value>(bytes).map(json_from_value)
}

/// The conversion half of `parse_document`: moves serde_json's tree into a
/// `Json`, node for node, member order kept.
#[verifier::external_body]
fn json_from_value(v: serde_json::Value) -> Json {
    match v {
        serde_json::Value::Null => Json::Null,
        serde_json::Value::Bool(b) => Json::Bool(b),
        serde_json::Value::Number(n) => Json::Number(match (n.as_u64(), n.as_i64()) {
            (Some(u), _) => JsonNumber::PosInt(u),
            (None, Some(i)) => JsonNumber::NegInt(i),
            (None, None) => JsonNumber::Float(n.to_string()),
        }),
        serde_json::Value::String(s) => Json::Str(s),
        serde_json::Value::Array(a) => Json::Array(a.into_iter().map(json_from_value).collect()),
        serde_json::Value::Object(o) => Json::Object(
            o.into_iter().map(|(k, x)| (k, json_from_value(x))).collect(),
        ),
    }
}

} // verus!
