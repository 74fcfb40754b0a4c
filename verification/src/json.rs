//! Loosely typed values: what a backend's JSON response holds, and what a caller hands in as
//! field values and as configuration.

use serde_json::Value;
use vstd::prelude::*;

verus! {

/// A number: a non-negative integer, a negative integer, or a decimal fraction kept as text.
#[derive(Debug, PartialEq)]
pub enum JsonNumber {
    /// A non-negative integer.
    PosInt(u64),
    /// An integer below zero.
    NegInt(i64),
    /// Any other number, as its text.
    Float(String),
}

/// A loosely typed value.
#[derive(Debug, PartialEq)]
pub enum JsonValue {
    Null,
    Bool(bool),
    Number(JsonNumber),
    String(String),
    /// The items, in their order.
    Array(Vec<JsonValue>),
    /// The entries, each a key and its value, in their order.
    Object(Vec<(String, JsonValue)>),
}

/// The mathematical model of a [`JsonNumber`].
pub enum NumberModel {
    PosInt(u64),
    NegInt(i64),
    Float(Seq<char>),
}

/// The mathematical model of a [`JsonValue`].
pub enum JsonModel {
    Null,
    Bool(bool),
    Number(NumberModel),
    String(Seq<char>),
    Array(Seq<JsonModel>),
    Object(Seq<(Seq<char>, JsonModel)>),
}

/// The value of the first entry of `entries` whose key is `key`.
pub open spec fn entry_value(entries: Seq<(Seq<char>, JsonModel)>, key: Seq<char>) -> Option<
    JsonModel,
>
    decreases entries.len(),
{
    if entries.len() == 0 {
        None
    } else if entries[0].0 == key {
        Some(entries[0].1)
    } else {
        entry_value(entries.drop_first(), key)
    }
}

impl NumberModel {
    /// The number as an unsigned integer, where it is a non-negative integer.
    pub open spec fn as_u64(self) -> Option<u64> {
        match self {
            NumberModel::PosInt(n) => Some(n),
            _ => None,
        }
    }

    /// The number as a signed integer, where it is an integer that fits.
    pub open spec fn as_i64(self) -> Option<i64> {
        match self {
            NumberModel::PosInt(n) => if n <= i64::MAX {
                Some(n as i64)
            } else {
                None
            },
            NumberModel::NegInt(n) => Some(n),
            NumberModel::Float(_) => None,
        }
    }
}

impl JsonModel {
    /// The text, where the value is a string.
    pub open spec fn as_str(self) -> Option<Seq<char>> {
        match self {
            JsonModel::String(s) => Some(s),
            _ => None,
        }
    }

    /// The truth value, where the value is a boolean.
    pub open spec fn as_bool(self) -> Option<bool> {
        match self {
            JsonModel::Bool(b) => Some(b),
            _ => None,
        }
    }

    /// The value as an unsigned integer, where it is a non-negative integer.
    pub open spec fn as_u64(self) -> Option<u64> {
        match self {
            JsonModel::Number(n) => n.as_u64(),
            _ => None,
        }
    }

    /// The value as a signed integer, where it is an integer that fits.
    pub open spec fn as_i64(self) -> Option<i64> {
        match self {
            JsonModel::Number(n) => n.as_i64(),
            _ => None,
        }
    }

    /// The items, where the value is an array.
    pub open spec fn as_array(self) -> Option<Seq<JsonModel>> {
        match self {
            JsonModel::Array(items) => Some(items),
            _ => None,
        }
    }

    /// The entries, where the value is an object.
    pub open spec fn as_object(self) -> Option<Seq<(Seq<char>, JsonModel)>> {
        match self {
            JsonModel::Object(entries) => Some(entries),
            _ => None,
        }
    }

    /// The value under `key`, where the value is an object that has the key.
    pub open spec fn get(self, key: Seq<char>) -> Option<JsonModel> {
        match self {
            JsonModel::Object(entries) => entry_value(entries, key),
            _ => None,
        }
    }
}

impl DeepView for JsonNumber {
    type V = NumberModel;

    open spec fn deep_view(&self) -> NumberModel {
        match self {
            JsonNumber::PosInt(n) => NumberModel::PosInt(*n),
            JsonNumber::NegInt(n) => NumberModel::NegInt(*n),
            JsonNumber::Float(t) => NumberModel::Float(t@),
        }
    }
}

/// The model of `v`: the same shape, with texts and lists as sequences.
pub open spec fn json_model(v: JsonValue) -> JsonModel
    decreases v,
{
    match v {
        JsonValue::Null => JsonModel::Null,
        JsonValue::Bool(b) => JsonModel::Bool(b),
        JsonValue::Number(n) => JsonModel::Number(n.deep_view()),
        JsonValue::String(s) => JsonModel::String(s@),
        JsonValue::Array(items) => JsonModel::Array(
            Seq::new(
                items@.len(),
                |i: int|
                    if 0 <= i < items@.len() {
                        json_model(items@[i])
                    } else {
                        JsonModel::Null
                    },
            ),
        ),
        JsonValue::Object(entries) => JsonModel::Object(
            Seq::new(
                entries@.len(),
                |i: int|
                    if 0 <= i < entries@.len() {
                        (entries@[i].0@, json_model(entries@[i].1))
                    } else {
                        (Seq::empty(), JsonModel::Null)
                    },
            ),
        ),
    }
}

impl DeepView for JsonValue {
    type V = JsonModel;

    open spec fn deep_view(&self) -> JsonModel {
        json_model(*self)
    }
}

/// The model of an array: the models of its items, in their order.
pub proof fn lemma_array_model(items: Vec<JsonValue>)
    ensures
        json_model(JsonValue::Array(items)) == JsonModel::Array(items.deep_view()),
{
    assert(json_model(JsonValue::Array(items))->Array_0 =~= items.deep_view());
}

/// The model of an object: the keys with the models of their values, in their order.
pub proof fn lemma_object_model(entries: Vec<(String, JsonValue)>)
    ensures
        json_model(JsonValue::Object(entries)) == JsonModel::Object(entries.deep_view()),
{
    assert(json_model(JsonValue::Object(entries))->Object_0 =~= entries.deep_view());
}

/// What decoding a JSON text gives: the document it writes down, or the decoder's
/// description of why the text is no document.
pub uninterp spec fn decoded_json(text: Seq<char>) -> Result<JsonModel, Seq<char>>;

/// What a decoded document holds.
pub uninterp spec fn document_model(document: Value) -> JsonModel;

/// `serde_json::Value`, a decoded document. Nothing is known of a value of it but through
/// [`document_model`].
#[verifier::external_type_specification]
#[verifier::external_body]
pub struct ExDocument(Value);

/// Decodes `text` by `serde_json::from_str`. The result depends on the text alone: the
/// document, or what the `Display` of the decoder's error writes.
#[verifier::external_body]
fn parse_document(text: &str) -> (r: Result<Value, String>)
    ensures
        match r {
            Ok(document) => decoded_json(text@) == Ok::<JsonModel, Seq<char>>(
                document_model(document),
            ),
            Err(message) => decoded_json(text@) == Err::<JsonModel, Seq<char>>(message@),
        },
{
    match serde_json::from_str::<Value>(text) {
        Ok(document) => Ok(document),
        Err(e) => Err(e.to_string()),
    }
}

/// Turns a `serde_json::Value` into a [`JsonValue`] of the same shape, variant by variant.
/// A number that `Number::as_u64` or `Number::as_i64` gives as an integer keeps its value,
/// any other number the text that the number's `Display` writes; an object's entries come
/// in the order in which the document's `Map` hands them out. What comes out is, by
/// definition, what the document holds.
#[verifier::external_body]
fn value_from_document(document: Value) -> (r: JsonValue)
    ensures
        r.deep_view() == document_model(document),
{
    match document {
        Value::Null => JsonValue::Null,
        Value::Bool(b) => JsonValue::Bool(b),
        Value::Number(n) => JsonValue::Number(match (n.as_u64(), n.as_i64()) {
            (Some(u), _) => JsonNumber::PosInt(u),
            (_, Some(i)) => JsonNumber::NegInt(i),
            _ => JsonNumber::Float(n.to_string()),
        }),
        Value::String(s) => JsonValue::String(s),
        Value::Array(a) => JsonValue::Array(a.into_iter().map(value_from_document).collect()),
        Value::Object(o) => JsonValue::Object(o.into_iter().map(|(k, v)| (k, value_from_document(v))).collect()),
    }
}

/// Decodes a JSON text.
///
/// Returns the document that the text writes down, or the decoder's description of why it is
/// none.
pub fn decode_json(text: &str) -> (r: Result<JsonValue, String>)
    ensures
        match r {
            Ok(v) => decoded_json(text@) == Ok::<JsonModel, Seq<char>>(v.deep_view()),
            Err(message) => decoded_json(text@) == Err::<JsonModel, Seq<char>>(message@),
        },
{
    match parse_document(text) {
        Ok(document) => Ok(value_from_document(document)),
        Err(message) => Err(message),
    }
}

impl JsonNumber {
    /// A copy of this number.
    pub fn duplicate(&self) -> (r: JsonNumber)
        ensures
            r.deep_view() == self.deep_view(),
    {
        match self {
            JsonNumber::PosInt(n) => JsonNumber::PosInt(*n),
            JsonNumber::NegInt(n) => JsonNumber::NegInt(*n),
            JsonNumber::Float(t) => JsonNumber::Float(t.clone()),
        }
    }
}

impl JsonValue {
    /// The text, where the value is a string.
    pub fn as_str(&self) -> (r: Option<&str>)
        ensures
            match r {
                Some(s) => self.deep_view().as_str() == Some(s@),
                None => self.deep_view().as_str() is None,
            },
    {
        match self {
            JsonValue::String(s) => Some(s.as_str()),
            _ => None,
        }
    }

    /// The truth value, where the value is a boolean.
    pub fn as_bool(&self) -> (r: Option<bool>)
        ensures
            r == self.deep_view().as_bool(),
    {
        match self {
            JsonValue::Bool(b) => Some(*b),
            _ => None,
        }
    }

    /// The value as an unsigned integer, where it is a non-negative integer.
    pub fn as_u64(&self) -> (r: Option<u64>)
        ensures
            r == self.deep_view().as_u64(),
    {
        match self {
            JsonValue::Number(JsonNumber::PosInt(n)) => Some(*n),
            _ => None,
        }
    }

    /// The value as a signed integer, where it is an integer that fits.
    pub fn as_i64(&self) -> (r: Option<i64>)
        ensures
            r == self.deep_view().as_i64(),
    {
        match self {
            JsonValue::Number(JsonNumber::PosInt(n)) => {
                if *n <= 0x7fff_ffff_ffff_ffff {
                    Some(*n as i64)
                } else {
                    None
                }
            },
            JsonValue::Number(JsonNumber::NegInt(n)) => Some(*n),
            _ => None,
        }
    }

    /// The items, where the value is an array.
    pub fn as_array(&self) -> (r: Option<&Vec<JsonValue>>)
        ensures
            match r {
                Some(items) => self.deep_view().as_array() == Some(items.deep_view()),
                None => self.deep_view().as_array() is None,
            },
    {
        match self {
            JsonValue::Array(items) => {
                proof {
                    lemma_array_model(*items);
                }
                Some(items)
            },
            _ => None,
        }
    }

    /// The entries, where the value is an object.
    pub fn as_object(&self) -> (r: Option<&Vec<(String, JsonValue)>>)
        ensures
            match r {
                Some(entries) => self.deep_view().as_object() == Some(entries.deep_view()),
                None => self.deep_view().as_object() is None,
            },
    {
        match self {
            JsonValue::Object(entries) => {
                proof {
                    lemma_object_model(*entries);
                }
                Some(entries)
            },
            _ => None,
        }
    }

    /// The value under `key`, where the value is an object that has the key. Of several
    /// entries with the key the first counts.
    pub fn get(&self, key: &str) -> (r: Option<&JsonValue>)
        ensures
            match r {
                Some(v) => self.deep_view().get(key@) == Some(v.deep_view()),
                None => self.deep_view().get(key@) is None,
            },
    {
        match self {
            JsonValue::Object(entries) => {
                proof {
                    lemma_object_model(*entries);
                }
                let wanted = key.to_owned();
                let ghost all = entries.deep_view();
                proof {
                    assert(all.skip(0) =~= all);
                }
                let mut i: usize = 0;
                while i < entries.len()
                    invariant
                        i <= entries@.len(),
                        all == entries.deep_view(),
                        self.deep_view() == JsonModel::Object(all),
                        wanted@ == key@,
                        entry_value(all, key@) == entry_value(all.skip(i as int), key@),
                    decreases entries@.len() - i,
                {
                    proof {
                        assert(all.skip(i as int)[0] == all[i as int]);
                        assert(all.skip(i as int).drop_first() =~= all.skip(i + 1));
                    }
                    if entries[i].0 == wanted {
                        return Some(&entries[i].1);
                    }
                    i = i + 1;
                }
                None
            },
            _ => None,
        }
    }

    /// A copy of this value.
    #[verifier::loop_isolation(false)]
    pub fn duplicate(&self) -> (r: JsonValue)
        ensures
            r.deep_view() == self.deep_view(),
        decreases self,
    {
        match self {
            JsonValue::Null => JsonValue::Null,
            JsonValue::Bool(b) => JsonValue::Bool(*b),
            JsonValue::Number(n) => JsonValue::Number(n.duplicate()),
            JsonValue::String(s) => JsonValue::String(s.clone()),
            JsonValue::Array(items) => {
                let mut out: Vec<JsonValue> = Vec::new();
                let mut i: usize = 0;
                while i < items.len()
                    invariant
                        i <= items@.len(),
                        out@.len() == i,
                        forall|j: int|
                            0 <= j < i ==> (#[trigger] out@[j]).deep_view()
                                == items@[j].deep_view(),
                    decreases items@.len() - i,
                {
                    let item = items[i].duplicate();
                    out.push(item);
                    i = i + 1;
                }
                proof {
                    lemma_array_model(*items);
                    lemma_array_model(out);
                    assert(out.deep_view() =~= items.deep_view());
                }
                JsonValue::Array(out)
            },
            JsonValue::Object(entries) => {
                let mut out: Vec<(String, JsonValue)> = Vec::new();
                let mut i: usize = 0;
                while i < entries.len()
                    invariant
                        i <= entries@.len(),
                        out@.len() == i,
                        forall|j: int|
                            0 <= j < i ==> (#[trigger] out@[j]).deep_view()
                                == entries@[j].deep_view(),
                    decreases entries@.len() - i,
                {
                    let key = entries[i].0.clone();
                    let value = entries[i].1.duplicate();
                    out.push((key, value));
                    i = i + 1;
                }
                proof {
                    lemma_object_model(*entries);
                    lemma_object_model(out);
                    assert(out.deep_view() =~= entries.deep_view());
                }
                JsonValue::Object(out)
            },
        }
    }
}

} // verus!
